//! Per-request correlation: a short random identifier and a start time.

use vstd::prelude::*;

use std::time::Instant;

verus! {

#[verifier::external_type_specification]
#[verifier::external_body]
pub struct ExInstant(Instant);

/// Length of a request identifier.
pub const REQUEST_ID_LEN: usize = 5;

/// The URL-safe characters that identifiers are drawn from.
pub open spec fn is_id_char(c: char) -> bool {
    ||| ('0' <= c && c <= '9')
    ||| ('a' <= c && c <= 'z')
    ||| ('A' <= c && c <= 'Z')
    ||| c == '_'
    ||| c == '-'
}

/// Multiplier of the fallback generator (Knuth's MMIX constants).
pub const LCG_MULTIPLIER: u64 = 6364136223846793005;

/// Increment of the fallback generator.
pub const LCG_INCREMENT: u64 = 1442695040888963407;

/// One step of the fallback generator, wrapping on overflow.
pub open spec fn lcg_next(state: u64) -> u64 {
    vstd::wrapping::u64_specs::wrapping_add(
        vstd::wrapping::u64_specs::wrapping_mul(state, LCG_MULTIPLIER),
        LCG_INCREMENT,
    )
}

/// The generator's state after `n` steps from `seed`.
pub open spec fn lcg_state(seed: u64, n: nat) -> u64
    decreases n,
{
    if n == 0 {
        seed
    } else {
        lcg_next(lcg_state(seed, (n - 1) as nat))
    }
}

/// The first `size` bytes of the fallback generator: the top byte of each
/// successive state.
pub open spec fn lcg_bytes(seed: u64, size: nat) -> Seq<u8> {
    Seq::new(size, |i: int| (lcg_state(seed, (i + 1) as nat) >> 56u64) as u8)
}

/// Relies on `getrandom::getrandom`: fills the buffer from the operating
/// system's random source, or returns an error; it does not panic.
#[verifier::external_body]
fn os_random_bytes(size: usize) -> (r: Option<Vec<u8>>)
    ensures
        r matches Some(bytes) ==> bytes@.len() == size,
{
    let mut buf = vec![0u8; size];
    match getrandom::getrandom(&mut buf) {
        Ok(()) => Some(buf),
        Err(_) => None,
    }
}

/// Relies on `std::time::SystemTime::elapsed` on `UNIX_EPOCH`: nanoseconds
/// since the epoch, none when the clock is set before it.
#[verifier::external_body]
fn clock_nanos() -> (r: Option<u128>) {
    match std::time::UNIX_EPOCH.elapsed() {
        Ok(d) => Some(d.as_nanos()),
        Err(_) => None,
    }
}

/// `size` bytes of a non-cryptographic linear congruential generator.
pub fn pseudo_random_bytes(seed: u64, size: usize) -> (r: Vec<u8>)
    ensures
        r@ == lcg_bytes(seed, size as nat),
{
    let mut bytes: Vec<u8> = Vec::new();
    let mut state: u64 = seed;
    let mut i: usize = 0;
    while i < size
        invariant
            i <= size,
            state == lcg_state(seed, i as nat),
            bytes@ =~= lcg_bytes(seed, i as nat),
        decreases size - i,
    {
        state = state.wrapping_mul(LCG_MULTIPLIER).wrapping_add(LCG_INCREMENT);
        bytes.push((state >> 56u64) as u8);
        i = i + 1;
    }
    bytes
}

/// Random bytes for identifiers: from the operating system when it can
/// supply them, otherwise from the fallback generator seeded with the clock.
/// Never fails.
pub fn random_bytes(size: usize) -> (r: Vec<u8>)
    ensures
        r@.len() == size,
{
    match os_random_bytes(size) {
        Some(bytes) => bytes,
        None => {
            let seed: u64 = match clock_nanos() {
                Some(nanos) => nanos as u64,
                None => 0,
            };
            pseudo_random_bytes(seed, size)
        },
    }
}

/// Relies on `nanoid::format` with `nanoid::alphabet::SAFE` and `random_bytes`
/// as byte source. Each round asks for `8 * size / 5 >= size` bytes and gets
/// that many; each byte is masked to `0..64`, which always indexes the
/// 64-symbol alphabet, so the first round yields `size` alphabet characters.
/// `format` panics only for an alphabet of more than 255 symbols.
#[verifier::external_body]
fn random_id(size: usize) -> (r: String)
    requires
        0 < size <= 1024,
    ensures
        r@.len() == size,
        forall|i: int| 0 <= i < r@.len() ==> is_id_char(#[trigger] r@[i]),
{
    nanoid::format(random_bytes, &nanoid::alphabet::SAFE, size)
}

/// Relies on `std::time::Instant::now`: the current monotonic time.
#[verifier::external_body]
fn monotonic_now() -> (r: Instant) {
    Instant::now()
}

/// The state attached to one request for the time it is handled.
pub struct RequestContext {
    /// Short identifier that ties the request's log lines together.
    pub id: String,
    /// When the request arrived.
    pub started_at: Instant,
}

impl RequestContext {
    /// Starts the context of a new request: a fresh identifier of
    /// `REQUEST_ID_LEN` URL-safe characters and the current time.
    pub fn begin() -> (r: RequestContext)
        ensures
            r.id@.len() == REQUEST_ID_LEN,
            forall|i: int| 0 <= i < r.id@.len() ==> is_id_char(#[trigger] r.id@[i]),
    {
        let id = random_id(REQUEST_ID_LEN);
        let started_at = monotonic_now();
        RequestContext { id, started_at }
    }
}

} // verus!
