use slime_sim::driver::Simulation;
use slime_sim::orchestrator::SimConfig;
use slime_sim::pipeline::{Program, Readiness};
use slime_sim::population::initial_species;
use slime_sim::readback::{readback_channel, DeliveryError};
use slime_sim::snapshot::{decode_snapshot, encode_agents, read_word, AgentRecord, SnapshotError};

fn record(x: f32, y: f32, angle: f32, species: u32) -> AgentRecord {
    AgentRecord { position_x: x.to_bits(), position_y: y.to_bits(), angle: angle.to_bits(), species }
}

fn four_agents() -> Vec<AgentRecord> {
    vec![
        record(50.0, 60.0, 0.5, 0),
        record(10.5, 90.25, -1.25, 1),
        record(75.0, 25.0, 3.0, 2),
        record(50.0, 50.0, 0.0, 1),
    ]
}

#[test]
fn read_word_is_little_endian() {
    let b = [0x78u8, 0x56, 0x34, 0x12, 0xff];
    assert_eq!(read_word(&b, 0), 0x12345678);
    assert_eq!(read_word(&b, 1), 0xff123456);
}

#[test]
fn encode_packs_sixteen_bytes_per_agent() {
    let bytes = encode_agents(&vec![AgentRecord { position_x: 1, position_y: 0x0201, angle: 0xdeadbeef, species: 2 }]);
    assert_eq!(bytes, vec![1, 0, 0, 0, 1, 2, 0, 0, 0xef, 0xbe, 0xad, 0xde, 2, 0, 0, 0]);
}

#[test]
fn decode_round_trips_encode() {
    let agents = four_agents();
    let bytes = encode_agents(&agents);
    assert_eq!(bytes.len(), 64);
    let s = decode_snapshot(&bytes, 4).unwrap();
    assert_eq!(s.len(), 4);
    assert_eq!(s.agents(), &agents);
}

#[test]
fn decode_rejects_wrong_length() {
    let bytes = encode_agents(&four_agents());
    match decode_snapshot(&bytes[..60], 4) {
        Err(e) => assert_eq!(e, SnapshotError::WrongLength { expected: 64, actual: 60 }),
        Ok(_) => panic!("short buffer accepted"),
    }
    match decode_snapshot(&bytes, 5) {
        Err(e) => assert_eq!(e, SnapshotError::WrongLength { expected: 80, actual: 64 }),
        Ok(_) => panic!("short buffer accepted"),
    }
}

#[test]
fn decode_rejects_unknown_species() {
    let mut agents = four_agents();
    agents[2].species = 3;
    agents[3].species = 7;
    let bytes = encode_agents(&agents);
    match decode_snapshot(&bytes, 4) {
        Err(e) => assert_eq!(e, SnapshotError::UnknownSpecies { index: 2, species: 3 }),
        Ok(_) => panic!("unknown species accepted"),
    }
}

#[test]
fn empty_population_decodes() {
    let s = decode_snapshot(&[], 0).unwrap();
    assert_eq!(s.len(), 0);
}

#[test]
fn small_simulation_delivers_snapshot() {
    let config = SimConfig { num_agents: 4, width: 100, height: 100, workgroup_size: 2 };
    let mut sim = Simulation::new(config).unwrap();
    let (tx, rx) = readback_channel();
    let ready = Readiness::Ready;
    let staging = encode_agents(&four_agents());
    let f1 = sim.frame(true, &ready, &ready, &ready).unwrap();
    assert_eq!(f1.plan.dispatch.unwrap().program, Program::Init);
    assert_eq!(f1.plan.copy_bytes as usize, staging.len());
    tx.deliver(&staging, config.num_agents).unwrap();
    let f2 = sim.frame(true, &ready, &ready, &ready).unwrap();
    assert_eq!(f2.plan.dispatch.unwrap().program, Program::UpdateAgents);
    tx.deliver(&staging, config.num_agents).unwrap();
    let mut last = None;
    while let Some(s) = rx.poll() {
        last = Some(s);
    }
    let s = last.unwrap();
    assert_eq!(s.len(), 4);
    for a in s.agents() {
        for bits in [a.position_x, a.position_y, a.angle] {
            let v = f32::from_bits(bits);
            assert!(v.is_finite());
            assert!(!v.is_nan());
        }
    }
}

#[test]
fn ten_frames_arrive_in_order() {
    let config = SimConfig { num_agents: 4, width: 100, height: 100, workgroup_size: 2 };
    let mut sim = Simulation::new(config).unwrap();
    let (tx, rx) = readback_channel();
    let ready = Readiness::Ready;
    let dt: f32 = 0.016;
    for frame in 0..10u32 {
        sim.frame(true, &ready, &ready, &ready).unwrap();
        let mut agents = four_agents();
        agents[0].angle = (dt * frame as f32).to_bits();
        tx.deliver(&encode_agents(&agents), config.num_agents).unwrap();
    }
    for frame in 0..10u32 {
        let s = rx.poll().unwrap();
        assert_eq!(s.len(), 4);
        assert_eq!(s.agents()[0].angle, (dt * frame as f32).to_bits());
    }
    assert!(rx.poll().is_none());
}

#[test]
fn poll_on_empty_channel_is_none() {
    let (_tx, rx) = readback_channel();
    assert!(rx.poll().is_none());
}

#[test]
fn invalid_snapshot_is_not_sent() {
    let (tx, rx) = readback_channel();
    let r = tx.deliver(&[0u8; 10], 4);
    assert_eq!(r, Err(DeliveryError::Snapshot(SnapshotError::WrongLength { expected: 64, actual: 10 })));
    assert!(rx.poll().is_none());
}

#[test]
fn send_after_consumer_dropped_fails() {
    let (tx, rx) = readback_channel();
    drop(rx);
    let r = tx.deliver(&encode_agents(&four_agents()), 4);
    assert_eq!(r, Err(DeliveryError::Disconnected));
}

#[test]
fn seeded_species_are_deterministic() {
    let a = initial_species(42, 1000);
    let b = initial_species(42, 1000);
    assert_eq!(a, b);
    assert_eq!(a.len(), 1000);
    assert!(a.iter().all(|s| *s < 3));
}

#[test]
fn species_cover_the_set() {
    let a = initial_species(7, 300);
    for s in 0..3u32 {
        assert!(a.contains(&s));
    }
    assert!(initial_species(7, 0).is_empty());
}
