use vstd::prelude::*;

use crossbeam_channel::{Receiver, Sender};

use crate::snapshot::{decode_snapshot, record_at, species_valid, Snapshot, SnapshotError, NUM_SPECIES};

verus! {

#[verifier::external_type_specification]
#[verifier::external_body]
#[verifier::reject_recursive_types(T)]
pub struct ExSender<T>(Sender<T>);

#[verifier::external_type_specification]
#[verifier::external_body]
#[verifier::reject_recursive_types(T)]
pub struct ExReceiver<T>(Receiver<T>);

/// Relies on crossbeam_channel::unbounded: a new unbounded FIFO channel.
#[verifier::external_body]
fn unbounded_snapshots() -> (Sender<Snapshot>, Receiver<Snapshot>) {
    crossbeam_channel::unbounded()
}

/// Relies on crossbeam_channel::Sender::send, which fails only when every
/// receiver is gone; the outcome depends on the other end.
#[verifier::external_body]
fn send_snapshot(s: &Sender<Snapshot>, v: Snapshot) -> (r: bool) {
    s.send(v).is_ok()
}

/// Relies on crossbeam_channel::Receiver::try_recv: takes the oldest queued
/// message without blocking, if there is one.
#[verifier::external_body]
fn try_recv_snapshot(r: &Receiver<Snapshot>) -> Option<Snapshot> {
    r.try_recv().ok()
}

/// Why a frame's readback was not delivered.
#[derive(Clone, Copy, Debug, PartialEq, Eq, Structural)]
pub enum DeliveryError {
    /// The mapped bytes are not a valid snapshot.
    Snapshot(SnapshotError),
    /// The consuming end was torn down.
    Disconnected,
}

/// Producer end of the readback channel.
pub struct ReadbackSender {
    inner: Sender<Snapshot>,
}

/// Consumer end of the readback channel.
pub struct ReadbackReceiver {
    inner: Receiver<Snapshot>,
}

/// A new unbounded, non-blocking readback channel.
pub fn readback_channel() -> (ReadbackSender, ReadbackReceiver) {
    let (s, r) = unbounded_snapshots();
    (ReadbackSender { inner: s }, ReadbackReceiver { inner: r })
}

impl ReadbackSender {
    /// Reads the mapped staging bytes as a snapshot of `num_agents` records
    /// and sends it. Bytes that are no valid snapshot are reported and not
    /// sent; otherwise the snapshot is sent, and the only failure left is a
    /// consumer that is gone.
    pub fn deliver(&self, bytes: &[u8], num_agents: u32) -> (r: Result<(), DeliveryError>)
        ensures
            bytes@.len() != 16 * num_agents ==> r == Err::<(), DeliveryError>(
                DeliveryError::Snapshot(
                    SnapshotError::WrongLength {
                        expected: (16 * num_agents) as u64,
                        actual: bytes@.len() as u64,
                    },
                ),
            ),
            (bytes@.len() == 16 * num_agents && forall|k: int|
                0 <= k < num_agents ==> species_valid(#[trigger] record_at(bytes@, k))) ==> (r is Ok
                || r == Err::<(), DeliveryError>(DeliveryError::Disconnected)),
            (bytes@.len() == 16 * num_agents && !(forall|k: int|
                0 <= k < num_agents ==> species_valid(#[trigger] record_at(bytes@, k)))) ==> (r is Err
                && r->Err_0 is Snapshot && match r->Err_0->Snapshot_0 {
                SnapshotError::UnknownSpecies { index, species } => index < num_agents && species
                    == record_at(bytes@, index as int).species && species >= NUM_SPECIES && forall|
                    k: int,
                | 0 <= k < index ==> species_valid(#[trigger] record_at(bytes@, k)),
                SnapshotError::WrongLength { .. } => false,
            }),
    {
        match decode_snapshot(bytes, num_agents) {
            Ok(s) => {
                if send_snapshot(&self.inner, s) {
                    Ok(())
                } else {
                    Err(DeliveryError::Disconnected)
                }
            },
            Err(e) => Err(DeliveryError::Snapshot(e)),
        }
    }
}

impl ReadbackReceiver {
    /// The oldest undelivered snapshot, if any; never blocks. Whatever comes
    /// back holds exactly its configured agent count, all of known species.
    pub fn poll(&self) -> (r: Option<Snapshot>) {
        try_recv_snapshot(&self.inner)
    }
}

} // verus!
