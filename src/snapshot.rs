use vstd::prelude::*;

verus! {

/// Number of species labels; a species is one of 0, 1 and 2.
pub const NUM_SPECIES: u32 = 3;

/// One agent as packed in the GPU buffer: four little-endian 32-bit words,
/// the position (x, y) and angle as IEEE-754 bit patterns, then the species.
#[derive(Clone, Copy, Debug, PartialEq, Eq, Structural)]
pub struct AgentRecord {
    pub position_x: u32,
    pub position_y: u32,
    pub angle: u32,
    pub species: u32,
}

/// Why a mapped agent buffer was not accepted as a snapshot.
#[derive(Clone, Copy, Debug, PartialEq, Eq, Structural)]
pub enum SnapshotError {
    /// The byte count is not that of the configured number of records.
    WrongLength { expected: u64, actual: u64 },
    /// The record at `index` carries a species outside the species set.
    UnknownSpecies { index: u32, species: u32 },
}

pub open spec fn species_valid(a: AgentRecord) -> bool {
    a.species < NUM_SPECIES
}

/// The little-endian word that starts at byte `i` of `b`.
pub open spec fn word_le(b: Seq<u8>, i: int) -> u32 {
    (b[i] as u32) | ((b[i + 1] as u32) << 8u32) | ((b[i + 2] as u32) << 16u32) | ((b[i + 3]
        as u32) << 24u32)
}

/// The four little-endian bytes of `w`.
pub open spec fn word_bytes(w: u32) -> Seq<u8> {
    seq![
        (w & 0xffu32) as u8,
        ((w >> 8u32) & 0xffu32) as u8,
        ((w >> 16u32) & 0xffu32) as u8,
        ((w >> 24u32) & 0xffu32) as u8,
    ]
}

/// The record packed at index `k` of `b`.
pub open spec fn record_at(b: Seq<u8>, k: int) -> AgentRecord {
    AgentRecord {
        position_x: word_le(b, 16 * k),
        position_y: word_le(b, 16 * k + 4),
        angle: word_le(b, 16 * k + 8),
        species: word_le(b, 16 * k + 12),
    }
}

/// The `n` records packed in `b`.
pub open spec fn records_of(b: Seq<u8>, n: nat) -> Seq<AgentRecord> {
    Seq::new(n, |k: int| record_at(b, k))
}

pub open spec fn record_bytes(a: AgentRecord) -> Seq<u8> {
    word_bytes(a.position_x) + word_bytes(a.position_y) + word_bytes(a.angle) + word_bytes(
        a.species,
    )
}

/// The packed bytes of a sequence of records, in order.
pub open spec fn encode_spec(s: Seq<AgentRecord>) -> Seq<u8>
    decreases s.len(),
{
    if s.len() == 0 {
        Seq::empty()
    } else {
        encode_spec(s.drop_last()) + record_bytes(s.last())
    }
}

/// A readback of the whole agent buffer: exactly the configured number of
/// records, each with a species of the species set.
pub struct Snapshot {
    agents: Vec<AgentRecord>,
    num_agents: u32,
}

impl Snapshot {
    #[verifier::type_invariant]
    spec fn inv(self) -> bool {
        &&& self.agents@.len() == self.num_agents as int
        &&& forall|k: int| 0 <= k < self.agents@.len() ==> species_valid(#[trigger] self.agents@[k])
    }

    /// The records of the snapshot, in buffer order.
    pub closed spec fn records(self) -> Seq<AgentRecord> {
        self.agents@
    }

    /// The agent count the snapshot was read for.
    pub closed spec fn expected_count(self) -> nat {
        self.num_agents as nat
    }

    /// The records, in buffer order.
    pub fn agents(&self) -> (r: &Vec<AgentRecord>)
        ensures
            r@ == self.records(),
            r@.len() == self.expected_count(),
            forall|k: int| 0 <= k < r@.len() ==> species_valid(#[trigger] r@[k]),
    {
        proof {
            use_type_invariant(self);
        }
        &self.agents
    }

    /// Number of records; always the configured agent count.
    pub fn len(&self) -> (r: usize)
        ensures
            r == self.records().len(),
            r == self.expected_count(),
    {
        proof {
            use_type_invariant(self);
        }
        self.agents.len()
    }
}

/// The little-endian word at byte `i`.
pub fn read_word(b: &[u8], i: usize) -> (r: u32)
    requires
        i + 4 <= b@.len(),
    ensures
        r == word_le(b@, i as int),
{
    (b[i] as u32) | ((b[i + 1] as u32) << 8u32) | ((b[i + 2] as u32) << 16u32) | ((b[i + 3]
        as u32) << 24u32)
}

fn push_word(out: &mut Vec<u8>, w: u32)
    ensures
        final(out)@ == old(out)@ + word_bytes(w),
{
    out.push((w & 0xffu32) as u8);
    out.push(((w >> 8u32) & 0xffu32) as u8);
    out.push(((w >> 16u32) & 0xffu32) as u8);
    out.push(((w >> 24u32) & 0xffu32) as u8);
    assert(final(out)@ =~= old(out)@ + word_bytes(w));
}

/// Packs the records for upload into the GPU agent buffer.
pub fn encode_agents(agents: &Vec<AgentRecord>) -> (r: Vec<u8>)
    ensures
        r@ == encode_spec(agents@),
{
    let mut out: Vec<u8> = Vec::new();
    let mut i: usize = 0;
    while i < agents.len()
        invariant
            i <= agents@.len(),
            out@ == encode_spec(agents@.subrange(0, i as int)),
        decreases agents@.len() - i,
    {
        let a = agents[i];
        let ghost before = out@;
        push_word(&mut out, a.position_x);
        push_word(&mut out, a.position_y);
        push_word(&mut out, a.angle);
        push_word(&mut out, a.species);
        proof {
            let s = agents@.subrange(0, i + 1);
            assert(s.drop_last() =~= agents@.subrange(0, i as int));
            assert(out@ =~= before + record_bytes(a));
        }
        i = i + 1;
    }
    assert(agents@.subrange(0, agents@.len() as int) =~= agents@);
    out
}

/// Reads a mapped agent buffer as a snapshot of `num_agents` records.
/// Fails when the byte count is not `16 * num_agents`, or at the first record
/// whose species is outside the species set.
pub fn decode_snapshot(bytes: &[u8], num_agents: u32) -> (r: Result<Snapshot, SnapshotError>)
    ensures
        bytes@.len() != 16 * num_agents ==> r == Err::<Snapshot, SnapshotError>(
            SnapshotError::WrongLength { expected: (16 * num_agents) as u64, actual: bytes@.len() as u64 },
        ),
        r is Ok <==> (bytes@.len() == 16 * num_agents && forall|k: int|
            0 <= k < num_agents ==> species_valid(#[trigger] record_at(bytes@, k))),
        r is Ok ==> r->Ok_0.records() == records_of(bytes@, num_agents as nat)
            && r->Ok_0.expected_count() == num_agents,
        (r is Err && bytes@.len() == 16 * num_agents) ==> match r->Err_0 {
            SnapshotError::UnknownSpecies { index, species } => index < num_agents
                && species == record_at(bytes@, index as int).species && species >= NUM_SPECIES
                && forall|k: int| 0 <= k < index ==> species_valid(#[trigger] record_at(bytes@, k)),
            SnapshotError::WrongLength { .. } => false,
        },
{
    let expected: u64 = num_agents as u64 * 16;
    if bytes.len() as u64 != expected {
        return Err(SnapshotError::WrongLength { expected, actual: bytes.len() as u64 });
    }
    let mut agents: Vec<AgentRecord> = Vec::new();
    let mut k: u32 = 0;
    while k < num_agents
        invariant
            k <= num_agents,
            bytes@.len() == 16 * num_agents,
            agents@ == records_of(bytes@, k as nat),
            forall|j: int| 0 <= j < k ==> species_valid(#[trigger] record_at(bytes@, j)),
        decreases num_agents - k,
    {
        let len: usize = bytes.len();
        assert(16 * (k as int) + 16 <= len);
        let base: usize = k as usize * 16;
        let a = AgentRecord {
            position_x: read_word(bytes, base),
            position_y: read_word(bytes, base + 4),
            angle: read_word(bytes, base + 8),
            species: read_word(bytes, base + 12),
        };
        if a.species >= NUM_SPECIES {
            assert(!species_valid(record_at(bytes@, k as int)));
            return Err(SnapshotError::UnknownSpecies { index: k, species: a.species });
        }
        agents.push(a);
        assert(agents@ =~= records_of(bytes@, (k + 1) as nat));
        k = k + 1;
    }
    proof {
        assert forall|j: int| 0 <= j < agents@.len() implies species_valid(
            #[trigger] agents@[j],
        ) by {
            assert(agents@[j] == record_at(bytes@, j));
        }
    }
    Ok(Snapshot { agents, num_agents })
}


proof fn lemma_word_round_trip(w: u32)
    ensures
        word_le(word_bytes(w), 0) == w,
{
    let b = word_bytes(w);
    let b0 = (w & 0xffu32) as u8;
    let b1 = ((w >> 8u32) & 0xffu32) as u8;
    let b2 = ((w >> 16u32) & 0xffu32) as u8;
    let b3 = ((w >> 24u32) & 0xffu32) as u8;
    assert(b[0] == b0 && b[1] == b1 && b[2] == b2 && b[3] == b3);
    assert(((b0 as u32) | ((b1 as u32) << 8u32) | ((b2 as u32) << 16u32) | ((b3 as u32) << 24u32))
        == w) by (bit_vector)
        requires
            b0 == (w & 0xffu32) as u8,
            b1 == ((w >> 8u32) & 0xffu32) as u8,
            b2 == ((w >> 16u32) & 0xffu32) as u8,
            b3 == ((w >> 24u32) & 0xffu32) as u8,
    ;
}

proof fn lemma_word_in_prefix(p: Seq<u8>, q: Seq<u8>, i: int)
    requires
        0 <= i,
        i + 4 <= p.len(),
    ensures
        word_le(p + q, i) == word_le(p, i),
{
    assert((p + q)[i] == p[i] && (p + q)[i + 1] == p[i + 1] && (p + q)[i + 2] == p[i + 2] && (p
        + q)[i + 3] == p[i + 3]);
}

proof fn lemma_word_in_suffix(p: Seq<u8>, q: Seq<u8>, j: int)
    requires
        0 <= j,
        j + 4 <= q.len(),
    ensures
        word_le(p + q, p.len() + j) == word_le(q, j),
{
    let n = p.len() as int;
    assert((p + q)[n + j] == q[j] && (p + q)[n + j + 1] == q[j + 1] && (p + q)[n + j + 2] == q[j
        + 2] && (p + q)[n + j + 3] == q[j + 3]);
}

/// Unpacking the packed bytes of any sequence of records gives back that
/// sequence, and each record takes sixteen bytes.
pub proof fn lemma_decode_encode(s: Seq<AgentRecord>)
    ensures
        encode_spec(s).len() == 16 * s.len(),
        records_of(encode_spec(s), s.len()) == s,
    decreases s.len(),
{
    if s.len() > 0 {
        let p = encode_spec(s.drop_last());
        let a = s.last();
        let q = record_bytes(a);
        lemma_decode_encode(s.drop_last());
        let b = p + q;
        assert(q.len() == 16);
        assert forall|k: int| 0 <= k < s.len() implies #[trigger] record_at(b, k) == s[k] by {
            if k < s.len() - 1 {
                lemma_word_in_prefix(p, q, 16 * k);
                lemma_word_in_prefix(p, q, 16 * k + 4);
                lemma_word_in_prefix(p, q, 16 * k + 8);
                lemma_word_in_prefix(p, q, 16 * k + 12);
                assert(record_at(p, k) == records_of(p, s.drop_last().len())[k]);
            } else {
                lemma_word_in_suffix(p, q, 0);
                lemma_word_in_suffix(p, q, 4);
                lemma_word_in_suffix(p, q, 8);
                lemma_word_in_suffix(p, q, 12);
                lemma_word_round_trip(a.position_x);
                lemma_word_round_trip(a.position_y);
                lemma_word_round_trip(a.angle);
                lemma_word_round_trip(a.species);
                let w0 = word_bytes(a.position_x);
                let w1 = word_bytes(a.position_y);
                let w2 = word_bytes(a.angle);
                let w3 = word_bytes(a.species);
                assert(q =~= w0 + (w1 + (w2 + w3)));
                lemma_word_in_prefix(w0, w1 + (w2 + w3), 0);
                lemma_word_in_suffix(w0, w1 + (w2 + w3), 0);
                lemma_word_in_prefix(w1, w2 + w3, 0);
                lemma_word_in_suffix(w1, w2 + w3, 0);
                lemma_word_in_prefix(w2, w3, 0);
                lemma_word_in_suffix(w2, w3, 0);
                assert(word_le(w1 + (w2 + w3), 0) == a.position_y);
                assert(word_le(w0 + (w1 + (w2 + w3)), 4) == word_le(w1 + (w2 + w3), 0));
                assert(word_le(w0 + (w1 + (w2 + w3)), 8) == word_le(w1 + (w2 + w3), 4));
                assert(word_le(w1 + (w2 + w3), 4) == word_le(w2 + w3, 0));
                assert(word_le(w0 + (w1 + (w2 + w3)), 12) == word_le(w1 + (w2 + w3), 8));
                assert(word_le(w1 + (w2 + w3), 8) == word_le(w2 + w3, 4));
            }
        }
        assert(records_of(b, s.len()) =~= s);
    } else {
        assert(records_of(encode_spec(s), s.len()) =~= s);
    }
}

} // verus!
