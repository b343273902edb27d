//! Generation of resource names that are unlikely to collide.
//!
//! Two strategies are offered: a prefix followed by a random 128-bit
//! identifier in its hyphenated form, or a prefix followed by the process id,
//! an in-process marker, and the wall-clock seconds and sub-second
//! nanoseconds, all in lower-case hexadecimal.
use vstd::prelude::*;

verus! {

/// The digit for `d` in bases up to sixteen, in lower case.
pub open spec fn digit_char(d: nat) -> char {
    seq!['0', '1', '2', '3', '4', '5', '6', '7', '8', '9', 'a', 'b', 'c', 'd', 'e', 'f'][d as int]
}

/// `n` in lower-case hexadecimal, with no leading zeros; zero is written `0`.
pub open spec fn lower_hex(n: nat) -> Seq<char>
    decreases n,
{
    if n < 16 {
        seq![digit_char(n)]
    } else {
        lower_hex(n / 16).push(digit_char(n % 16))
    }
}

/// The last `width` lower-case hexadecimal digits of `n`, zeros in front.
pub open spec fn hex_fixed(n: nat, width: nat) -> Seq<char>
    decreases width,
{
    if width == 0 {
        seq![]
    } else {
        hex_fixed(n / 16, (width - 1) as nat).push(digit_char(n % 16))
    }
}

/// The hyphenated text of a 128-bit identifier: its 32 hexadecimal digits,
/// most significant first, in groups of 8, 4, 4, 4 and 12.
pub open spec fn hyphenated(v: u128) -> Seq<char> {
    let h = hex_fixed(v as nat, 32);
    h.subrange(0, 8) + seq!['-'] + h.subrange(8, 12) + seq!['-'] + h.subrange(12, 16) + seq!['-']
        + h.subrange(16, 20) + seq!['-'] + h.subrange(20, 32)
}

/// The name made of `prefix` and the process-local parts that vary it.
pub open spec fn timed_name(prefix: Seq<char>, pid: u32, marker: usize, secs: u64, nanos: u32) -> Seq<char> {
    prefix + lower_hex(pid as nat) + lower_hex(marker as nat) + lower_hex(secs as nat) + lower_hex(
        nanos as nat,
    )
}

/// Relies on `String::push`: the character is appended.
#[verifier::external_body]
fn push_char(s: &mut String, c: char)
    ensures
        final(s)@ == old(s)@.push(c),
{
    s.push(c)
}

/// Relies on `uuid::Uuid::new_v4` and `Uuid::as_u128`: a random identifier
/// whose version nibble is 4.
#[verifier::external_body]
fn new_v4_bits() -> (r: u128)
    ensures
        (r >> 76u128) & 0xfu128 == 4,
{
    uuid::Uuid::new_v4().as_u128()
}

/// Relies on `uuid::Uuid::from_u128` and the `Display` of its hyphenated
/// form: 32 lower-case hexadecimal digits of the value, most significant
/// first, with hyphens after the 8th, 12th, 16th and 20th.
#[verifier::external_body]
fn hyphenated_text(v: u128) -> (r: String)
    ensures
        r@ == hyphenated(v),
{
    uuid::Uuid::from_u128(v).hyphenated().to_string()
}

fn digit(d: u64) -> (c: char)
    requires
        d < 16,
    ensures
        c == digit_char(d as nat),
{
    let digits = ['0', '1', '2', '3', '4', '5', '6', '7', '8', '9', 'a', 'b', 'c', 'd', 'e', 'f'];
    digits[d as usize]
}

/// Appends `n` in lower-case hexadecimal to `out`.
fn push_hex(out: &mut String, n: u64)
    ensures
        final(out)@ == old(out)@ + lower_hex(n as nat),
    decreases n,
{
    if n >= 16 {
        push_hex(out, n / 16);
    }
    push_char(out, digit(n % 16));
    proof {
        assert(final(out)@ =~= old(out)@ + lower_hex(n as nat));
    }
}

/// Represents a generated resource name.
pub struct RandomName {
    name: String,
}

impl View for RandomName {
    type V = Seq<char>;

    closed spec fn view(&self) -> Seq<char> {
        self.name@
    }
}

impl RandomName {
    /// The name made of `prefix`, the process id `pid`, a pointer-sized
    /// in-process `marker`, and the clock reading `secs` / `subsec_nanos`.
    pub fn new(prefix: &str, pid: u32, marker: usize, secs: u64, subsec_nanos: u32) -> (r: Self)
        ensures
            r@ == timed_name(prefix@, pid, marker, secs, subsec_nanos),
    {
        let mut name = String::from_str(prefix);
        push_hex(&mut name, pid as u64);
        push_hex(&mut name, marker as u64);
        push_hex(&mut name, secs);
        push_hex(&mut name, subsec_nanos as u64);
        RandomName { name }
    }

    /// The name made of `prefix` and the hyphenated identifier `uuid`.
    pub fn with_uuid(prefix: &str, uuid: u128) -> (r: Self)
        ensures
            r@ == prefix@ + hyphenated(uuid),
    {
        let mut name = String::from_str(prefix);
        let id = hyphenated_text(uuid);
        name.append(id.as_str());
        RandomName { name }
    }

    /// A name made of `prefix` and a fresh random identifier.
    pub fn random(prefix: &str) -> (r: Self)
        ensures
            exists|v: u128| (v >> 76u128) & 0xfu128 == 4 && r@ == prefix@ + hyphenated(v),
    {
        Self::with_uuid(prefix, new_v4_bits())
    }

    /// The name as text.
    pub fn as_str(&self) -> (r: &str)
        ensures
            r@ == self@,
    {
        self.name.as_str()
    }
}

impl AsRef<str> for RandomName {
    fn as_ref(&self) -> (r: &str)
        ensures
            r@ == self@,
    {
        self.as_str()
    }
}

} // verus!
