//! Random numbers from the operating system.
use vstd::bytes::*;
use vstd::prelude::*;

use crate::text;

verus! {

/// `getrandom::Error`: why the operating system gave no random bytes.
#[verifier::external_type_specification]
#[verifier::external_body]
pub struct ExEntropyError(getrandom::Error);

/// `getrandom::fill` on eight bytes: the bytes, or the reason there are none. Nothing is
/// said of their values.
#[verifier::external_body]
pub(crate) fn random_bytes() -> (out: Result<[u8; 8], getrandom::Error>) {
    let mut bytes = [0u8; 8];
    getrandom::fill(&mut bytes)?;
    Ok(bytes)
}

/// The number that eight bytes spell, low byte first, without its top bit.
pub open spec fn low63(bytes: Seq<u8>) -> nat {
    spec_u64_from_le_bytes(bytes) as nat % 0x8000_0000_0000_0000
}

/// The number that eight bytes spell, low byte first, without its top bit.
pub fn epoch_of(bytes: [u8; 8]) -> (epoch: u64)
    ensures
        epoch == low63(bytes@),
        epoch <= i64::MAX,
{
    let n: u64 = u64_from_le_bytes(bytes.as_slice());
    assert(n & 0x7fff_ffff_ffff_ffff == n % 0x8000_0000_0000_0000) by (bit_vector);
    n & 0x7fff_ffff_ffff_ffff
}

/// A number as sixteen hexadecimal digits.
pub fn hex_id(n: u64) -> (out: String)
    ensures
        out@ == text::hex_padded(n as nat, 16),
{
    text::hex_padded_u64(n, 16)
}

/// Eight bytes as sixteen hexadecimal digits, first byte first.
pub open spec fn hex_of(bytes: Seq<u8>) -> Seq<char>
    decreases bytes.len(),
{
    if bytes.len() == 0 {
        seq![]
    } else {
        hex_of(bytes.drop_last()) + text::hex_padded(bytes.last() as nat, 2)
    }
}

/// Eight bytes as sixteen hexadecimal digits, first byte first.
pub fn hex_name(bytes: [u8; 8]) -> (out: String)
    ensures
        out@ == hex_of(bytes@),
{
    let mut out: String = String::new();
    let mut i: usize = 0;
    assert(bytes@.take(0) =~= seq![]);
    assert(out@ =~= seq![]);
    while i < 8
        invariant
            i <= 8,
            out@ == hex_of(bytes@.take(i as int)),
        decreases 8 - i,
    {
        let pair: String = text::hex_padded_u64(bytes[i] as u64, 2);
        let grown: String = text::join2(out.as_str(), pair.as_str());
        assert(bytes@.take(i + 1).drop_last() =~= bytes@.take(i as int));
        out = grown;
        i = i + 1;
    }
    assert(bytes@.take(8) =~= bytes@);
    out
}

/// The name that a draw of random bytes gives: none where there were none.
pub fn name_from(drawn: Result<[u8; 8], getrandom::Error>) -> (out: Option<String>)
    ensures
        drawn matches Ok(bytes) ==> (out matches Some(name) && name@ == hex_of(bytes@)),
        drawn is Err ==> out is None,
{
    match drawn {
        Ok(bytes) => Some(hex_name(bytes)),
        Err(_) => None,
    }
}

/// The number that a draw of random bytes gives: none where there were none.
pub fn epoch_from(drawn: Result<[u8; 8], getrandom::Error>) -> (out: Option<u64>)
    ensures
        drawn matches Ok(bytes) ==> (out matches Some(epoch) && epoch == low63(bytes@)),
        drawn is Err ==> out is None,
        out matches Some(epoch) ==> epoch <= i64::MAX,
{
    match drawn {
        Ok(bytes) => Some(epoch_of(bytes)),
        Err(_) => None,
    }
}

/// The instance name that a draw of random bytes gives: none where there were none.
pub fn instance_id_from(drawn: Result<[u8; 8], getrandom::Error>) -> (out: Option<String>)
    ensures
        drawn matches Ok(bytes) ==> (out matches Some(id) && id@ == text::hex_padded(
            low63(bytes@),
            16,
        )),
        drawn is Err ==> out is None,
{
    match epoch_from(drawn) {
        Some(epoch) => Some(hex_id(epoch)),
        None => None,
    }
}

/// A fresh name of sixteen hexadecimal digits, where the operating system has randomness to
/// give.
pub fn random_name() -> (out: Option<String>)
    ensures
        out matches Some(name) ==> exists|bytes: Seq<u8>|
            bytes.len() == 8 && #[trigger] hex_of(bytes) == name@,
{
    let drawn = random_bytes();
    proof {
        if let Ok(bytes) = drawn {
            assert(bytes@.len() == 8);
        }
    }
    name_from(drawn)
}

/// A random number below two to the sixty-third, where the operating system has randomness
/// to give.
pub fn random_epoch() -> (out: Option<u64>)
    ensures
        out matches Some(epoch) ==> exists|bytes: Seq<u8>|
            bytes.len() == 8 && #[trigger] low63(bytes) == epoch,
        out matches Some(epoch) ==> epoch <= i64::MAX,
{
    let drawn = random_bytes();
    proof {
        if let Ok(bytes) = drawn {
            assert(bytes@.len() == 8);
        }
    }
    epoch_from(drawn)
}

/// A fresh instance name: sixty-three random bits as sixteen hexadecimal digits, where the
/// operating system has randomness to give.
pub fn mint_instance_id() -> (out: Option<String>)
    ensures
        out matches Some(id) ==> exists|bytes: Seq<u8>|
            bytes.len() == 8 && text::hex_padded(#[trigger] low63(bytes), 16) == id@,
{
    let drawn = random_bytes();
    proof {
        if let Ok(bytes) = drawn {
            assert(bytes@.len() == 8);
        }
    }
    instance_id_from(drawn)
}

/// A name spells its bytes in order, two digits each.
pub proof fn law_a_name_spells_its_bytes(bytes: Seq<u8>, next: u8)
    ensures
        hex_of(seq![]).len() == 0,
        hex_of(bytes.push(next)) == hex_of(bytes) + seq![
            text::hex_digit((next / 16) as nat),
            text::hex_digit((next % 16) as nat),
        ],
        hex_of(bytes).len() == 2 * bytes.len(),
    decreases bytes.len(),
{
    assert(bytes.push(next).drop_last() =~= bytes);
    let n = next as nat;
    text::law_hex_digits_follow_each_other(n / 16, n % 16, 1);
    text::law_hex_digits_follow_each_other(0, n / 16, 0);
    assert(text::hex_padded(0, 0) =~= seq![]);
    assert(text::hex_padded(n, 2) =~= seq![text::hex_digit(n / 16), text::hex_digit(n % 16)]);
    if bytes.len() > 0 {
        law_a_name_spells_its_bytes(bytes.drop_last(), bytes.last());
        assert(bytes.drop_last().push(bytes.last()) =~= bytes);
    }
}

} // verus!
