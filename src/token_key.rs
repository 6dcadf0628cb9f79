use vstd::prelude::*;

verus! {

/// Length in bytes of the symmetric key that signs issued tokens.
pub const TOKEN_KEY_LEN: usize = 48;

/// The key derived from a configured session key `s`: bytes are taken from
/// the end of `s` towards its start, wrapping around, until 48 are collected.
pub open spec fn token_key_of(s: Seq<u8>) -> Seq<u8>
    recommends
        s.len() > 0,
{
    Seq::new(48, |i: int| s[s.len() - 1 - (i % (s.len() as int))])
}

proof fn lemma_next_wrapped_index(i: int, l: int, n: int)
    requires
        n > 0,
        0 <= i,
        0 < l <= n,
        (l + i) % n == 0,
    ensures
        l == n - (i % n),
        (l - 1 + i + 1) % n == 0,
{
    vstd::arithmetic::div_mod::lemma_fundamental_div_mod(i, n);
    vstd::arithmetic::div_mod::lemma_fundamental_div_mod(l + i, n);
    vstd::arithmetic::div_mod::lemma_mod_bound(i, n);
    let q1 = i / n;
    let q2 = (l + i) / n;
    assert(l == n * q2 - n * q1 - i % n);
    assert(n * q2 - n * q1 == n * (q2 - q1)) by (nonlinear_arith);
    if q2 - q1 <= 0 {
        assert(n * (q2 - q1) <= 0) by (nonlinear_arith)
            requires q2 - q1 <= 0, n > 0;
    } else if q2 - q1 >= 2 {
        assert(n * (q2 - q1) >= 2 * n) by (nonlinear_arith)
            requires q2 - q1 >= 2, n > 0;
    }
    assert(q2 - q1 == 1);
}

/// Derives the token signing key from a configured session key.
pub fn get_token_secret_key_from_settings(session_key: &[u8]) -> (r: Vec<u8>)
    requires
        session_key@.len() > 0,
    ensures
        r@ == token_key_of(session_key@),
        r@.len() == TOKEN_KEY_LEN,
{
    let n = session_key.len();
    let mut result: Vec<u8> = Vec::with_capacity(TOKEN_KEY_LEN);
    let mut key: Vec<u8> = Vec::new();
    proof {
        vstd::arithmetic::div_mod::lemma_small_mod(0, n as nat);
    }
    while result.len() < TOKEN_KEY_LEN
        invariant
            n == session_key@.len(),
            n > 0,
            result@.len() <= TOKEN_KEY_LEN,
            key@.len() <= n,
            key@ == session_key@.subrange(0, key@.len() as int),
            (key@.len() + result@.len()) as int % (n as int) == 0,
            forall|j: int|
                0 <= j < result@.len() ==> result@[j] == session_key@[n - 1 - (j % (n as int))],
        decreases TOKEN_KEY_LEN - result@.len(),
    {
        if key.len() == 0 {
            key = vstd::slice::slice_to_vec(session_key);
            proof {
                vstd::arithmetic::div_mod::lemma_mod_add_multiples_vanish(
                    result@.len() as int,
                    n as int,
                );
            }
        }
        proof {
            lemma_next_wrapped_index(result@.len() as int, key@.len() as int, n as int);
        }
        let b = key.pop().unwrap();
        result.push(b);
    }
    assert(result@ =~= token_key_of(session_key@));
    result
}

/// Deriving the token key depends on the configured session key alone:
/// two derivations from the same key give the same 48 bytes.
pub proof fn lemma_token_key_deterministic(s1: Seq<u8>, s2: Seq<u8>)
    requires
        s1.len() > 0,
        s1 == s2,
    ensures
        token_key_of(s1) == token_key_of(s2),
        token_key_of(s1).len() == TOKEN_KEY_LEN,
{
}

/// The bytes of a version 4 UUID carry the version nibble `4` in byte 6 and
/// the RFC 4122 variant bits `10` in byte 8.
pub open spec fn is_v4_uuid_bytes(b: Seq<u8>) -> bool {
    &&& b.len() == 16
    &&& b[6] & 0xf0u8 == 0x40u8
    &&& b[8] & 0xc0u8 == 0x80u8
}

/// Relies on uuid::Uuid::new_v4 and Uuid::as_bytes: sixteen random bytes
/// with the version and variant bits of a version 4 UUID set.
#[verifier::external_body]
fn new_v4_uuid_bytes() -> (r: Vec<u8>)
    ensures
        is_v4_uuid_bytes(r@),
{
    uuid::Uuid::new_v4().as_bytes().to_vec()
}

/// The key made of three 16-byte blocks, each consumed from its last byte
/// to its first, one block after the other.
pub open spec fn token_key_of_blocks(blocks: Seq<Seq<u8>>) -> Seq<u8> {
    Seq::new(48, |i: int| blocks[i / 16][15 - i % 16])
}

/// A key built from three version 4 UUIDs by `token_key_of_blocks`.
pub open spec fn is_random_token_key(r: Seq<u8>) -> bool {
    exists|blocks: Seq<Seq<u8>>|
        #![trigger token_key_of_blocks(blocks)]
        blocks.len() == 3 && (forall|k: int| 0 <= k < 3 ==> is_v4_uuid_bytes(#[trigger] blocks[k]))
            && r == token_key_of_blocks(blocks)
}

/// Builds a token key from the bytes of three drawn UUIDs.
pub fn token_key_from_uuid_blocks(blocks: &Vec<Vec<u8>>) -> (r: Vec<u8>)
    requires
        blocks@.len() == 3,
        forall|k: int| 0 <= k < 3 ==> (#[trigger] blocks@[k])@.len() == 16,
    ensures
        r@ == token_key_of_blocks(blocks@.map_values(|b: Vec<u8>| b@)),
        r@.len() == TOKEN_KEY_LEN,
{
    let ghost model = blocks@.map_values(|b: Vec<u8>| b@);
    let mut result: Vec<u8> = Vec::with_capacity(TOKEN_KEY_LEN);
    let mut i: usize = 0;
    while i < TOKEN_KEY_LEN
        invariant
            i <= TOKEN_KEY_LEN,
            blocks@.len() == 3,
            forall|k: int| 0 <= k < 3 ==> (#[trigger] blocks@[k])@.len() == 16,
            model == blocks@.map_values(|b: Vec<u8>| b@),
            result@.len() == i,
            forall|j: int| 0 <= j < i ==> result@[j] == #[trigger] token_key_of_blocks(model)[j],
        decreases TOKEN_KEY_LEN - i,
    {
        let block = &blocks[i / 16];
        let b = block[15 - i % 16];
        result.push(b);
        i = i + 1;
    }
    assert(result@ =~= token_key_of_blocks(model));
    result
}

/// Generates a token key from three fresh version 4 UUIDs when no session
/// key is configured.
pub fn generate_random_token_secret_key() -> (r: Vec<u8>)
    ensures
        is_random_token_key(r@),
        r@.len() == TOKEN_KEY_LEN,
{
    let mut blocks: Vec<Vec<u8>> = Vec::new();
    blocks.push(new_v4_uuid_bytes());
    blocks.push(new_v4_uuid_bytes());
    blocks.push(new_v4_uuid_bytes());
    let r = token_key_from_uuid_blocks(&blocks);
    proof {
        let model = blocks@.map_values(|b: Vec<u8>| b@);
        assert(forall|k: int| 0 <= k < 3 ==> is_v4_uuid_bytes(#[trigger] model[k]));
        assert(r@ == token_key_of_blocks(model));
    }
    r
}

} // verus!
