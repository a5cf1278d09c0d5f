use access_protocol::state::{pool_seeds, StakePool};
use solana_program::pubkey::Pubkey as HostKey;

const OWNER: [u8; 32] = [11; 32];
const DESTINATION: [u8; 32] = [22; 32];

fn host_address(nonce: u8, name: &str, owner: &[u8; 32], destination: &[u8; 32], program: &[u8; 32]) -> Option<[u8; 32]> {
    let nonce_seed = [nonce];
    let seeds: [&[u8]; 4] = [name.as_bytes(), owner, destination, &nonce_seed];
    HostKey::create_program_address(&seeds, &HostKey::new_from_array(*program)).ok().map(|k| k.to_bytes())
}

fn program_with_address(nonce: u8, name: &str) -> [u8; 32] {
    for b in 1..=255u8 {
        let program = [b; 32];
        if StakePool::create_key(&nonce, name, &OWNER, &DESTINATION, &program).is_some() {
            return program;
        }
    }
    panic!("no program id gives an address");
}

#[test]
fn pool_seeds_are_name_owner_destination_nonce() {
    let seeds = pool_seeds(3, "pool-a", &OWNER, &DESTINATION);
    assert_eq!(seeds, vec![b"pool-a".to_vec(), OWNER.to_vec(), DESTINATION.to_vec(), vec![3u8]]);
}

#[test]
fn create_key_is_the_program_derived_address() {
    let mut some = 0;
    for b in 0..=255u8 {
        let program = [b; 32];
        let got = StakePool::create_key(&3, "pool-a", &OWNER, &DESTINATION, &program);
        assert_eq!(got, host_address(3, "pool-a", &OWNER, &DESTINATION, &program));
        if let Some(k) = got {
            some += 1;
            assert_ne!(k, program);
            assert_ne!(k, OWNER);
            assert_ne!(k, DESTINATION);
        }
    }
    assert!(some > 0);
    assert!(some < 256);
}

#[test]
fn create_key_is_deterministic() {
    let program = program_with_address(3, "pool-a");
    let first = StakePool::create_key(&3, "pool-a", &OWNER, &DESTINATION, &program);
    for _ in 0..10 {
        assert_eq!(StakePool::create_key(&3, "pool-a", &OWNER, &DESTINATION, &program), first);
    }
}

#[test]
fn create_key_changes_with_every_input() {
    let program = program_with_address(3, "pool-a");
    let base = StakePool::create_key(&3, "pool-a", &OWNER, &DESTINATION, &program).unwrap();
    let mut other_owner = OWNER;
    other_owner[31] ^= 1;
    let mut other_destination = DESTINATION;
    other_destination[0] ^= 1;
    let mut other_program = program;
    other_program[5] ^= 1;
    let variants = [
        StakePool::create_key(&4, "pool-a", &OWNER, &DESTINATION, &program),
        StakePool::create_key(&3, "pool-b", &OWNER, &DESTINATION, &program),
        StakePool::create_key(&3, "pool-a", &other_owner, &DESTINATION, &program),
        StakePool::create_key(&3, "pool-a", &OWNER, &other_destination, &program),
        StakePool::create_key(&3, "pool-a", &OWNER, &DESTINATION, &other_program),
        StakePool::create_key(&3, "pool-a", &DESTINATION, &OWNER, &program),
    ];
    for v in variants {
        assert_ne!(v, Some(base));
    }
}

#[test]
fn create_key_has_no_collision_over_sampled_inputs() {
    let mut seen = std::collections::HashSet::new();
    let mut count = 0;
    for nonce in 0..=255u8 {
        for name in ["", "a", "pool-a", "pool-b", "a-very-long-name-of-32-bytes-len"] {
            for program in [[1u8; 32], [2u8; 32]] {
                if let Some(k) = StakePool::create_key(&nonce, name, &OWNER, &DESTINATION, &program) {
                    count += 1;
                    assert!(seen.insert(k));
                }
            }
        }
    }
    assert!(count > 500);
}

#[test]
fn create_key_refuses_name_longer_than_a_seed() {
    let name = "n".repeat(33);
    for b in 0..=255u8 {
        assert_eq!(StakePool::create_key(&0, &name, &OWNER, &DESTINATION, &[b; 32]), None);
    }
    let longest = "n".repeat(32);
    let program = program_with_address(0, &longest);
    assert!(StakePool::create_key(&0, &longest, &OWNER, &DESTINATION, &program).is_some());
}

#[test]
fn create_key_counts_name_length_in_bytes() {
    let name = "ä".repeat(17);
    assert_eq!(name.len(), 34);
    for b in 0..=255u8 {
        assert_eq!(StakePool::create_key(&0, &name, &OWNER, &DESTINATION, &[b; 32]), None);
    }
}
