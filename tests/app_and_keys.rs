use my_reverse_proxy::app_context::{AppContext, AppState, ConnectionsSettings, IdGenerator};
use my_reverse_proxy::token_key::{
    generate_random_token_secret_key, get_token_secret_key_from_settings,
    token_key_from_uuid_blocks,
};

fn settings() -> ConnectionsSettings {
    ConnectionsSettings {
        buffer_size: 4096,
        remote_connect_timeout_ms: 5000,
        request_timeout_ms: 1000,
    }
}

#[test]
fn token_key_is_taken_from_the_end_wrapping() {
    let key = get_token_secret_key_from_settings(b"abc");
    assert_eq!(key.len(), 48);
    assert_eq!(&key[0..6], b"cbacba");
    assert_eq!(key[47], b'a');
}

#[test]
fn token_key_is_deterministic() {
    let a = get_token_secret_key_from_settings(b"my-session-key");
    let b = get_token_secret_key_from_settings(b"my-session-key");
    assert_eq!(a, b);
    let c = get_token_secret_key_from_settings(b"other-key");
    assert_ne!(a, c);
}

#[test]
fn token_key_from_a_long_session_key() {
    let s: Vec<u8> = (0u8..60).collect();
    let key = get_token_secret_key_from_settings(&s);
    assert_eq!(key.len(), 48);
    assert_eq!(key[0], 59);
    assert_eq!(key[47], 12);
}

#[test]
fn random_token_key_carries_uuid_v4_bits() {
    let key = generate_random_token_secret_key();
    assert_eq!(key.len(), 48);
    for block in 0..3 {
        assert_eq!(key[block * 16 + 9] & 0xf0, 0x40);
        assert_eq!(key[block * 16 + 7] & 0xc0, 0x80);
    }
    let other = generate_random_token_secret_key();
    assert_ne!(key, other);
}

#[test]
fn app_context_uses_configured_session_key() {
    let app = AppContext::new(settings(), Some(b"secret".as_slice()));
    assert_eq!(app.token_secret_key, get_token_secret_key_from_settings(b"secret"));
    assert_eq!(app.http_connections, 0);
    assert_eq!(app.states, AppState::Initialized);
    assert_eq!(app.connection_settings, settings());
}

#[test]
fn app_context_without_session_key_draws_a_key() {
    let app = AppContext::new(settings(), None);
    assert_eq!(app.token_secret_key.len(), 48);
}

#[test]
fn ids_are_strictly_increasing() {
    let mut app = AppContext::new(settings(), Some(b"k".as_slice()));
    let mut last = app.get_id();
    assert_eq!(last, 0);
    for _ in 0..100 {
        let next = app.get_id();
        assert!(next > last);
        last = next;
    }
    assert_eq!(last, 100);
}

#[test]
fn id_generator_starts_at_zero() {
    let mut g = IdGenerator::new();
    assert_eq!(g.get_id(), 0);
    assert_eq!(g.get_id(), 1);
    assert_eq!(g.get_id(), 2);
}

#[test]
fn fresh_context_can_hand_out_ids() {
    let app = AppContext::new(settings(), Some(b"k".as_slice()));
    assert!(app.has_next_id());
}

#[test]
fn token_key_from_blocks_consumes_each_block_from_its_end() {
    let blocks: Vec<Vec<u8>> = vec![(0u8..16).collect(), (16u8..32).collect(), (32u8..48).collect()];
    let key = token_key_from_uuid_blocks(&blocks);
    let mut expected = Vec::new();
    for b in blocks.iter() {
        expected.extend(b.iter().rev());
    }
    assert_eq!(key, expected);
    assert_eq!(key[0], 15);
    assert_eq!(key[16], 31);
    assert_eq!(key[47], 32);
}
