//! Order ids: 32 random bytes written as 64 lowercase hex digits.
use rand::RngCore;
use vstd::prelude::*;

verus! {

/// The number of random bytes in an order id.
pub const ID_BYTES: usize = 32;

/// The lowercase hex digits, in order of value.
pub open spec fn hex_digits() -> Seq<char> {
    seq!['0', '1', '2', '3', '4', '5', '6', '7', '8', '9', 'a', 'b', 'c', 'd', 'e', 'f']
}

/// `b` in lowercase hex, two digits a byte, high digit first.
pub open spec fn hex_of(b: Seq<u8>) -> Seq<char>
    decreases b.len(),
{
    if b.len() == 0 {
        Seq::empty()
    } else {
        hex_of(b.drop_last()) + seq![
            hex_digits()[(b.last() / 16) as int],
            hex_digits()[(b.last() % 16) as int],
        ]
    }
}

/// The shape of every order id the server assigns: 64 lowercase hex digits.
pub open spec fn is_order_id(s: Seq<char>) -> bool {
    &&& s.len() == 2 * ID_BYTES
    &&& forall|i: int| 0 <= i < s.len() ==> hex_digits().contains(#[trigger] s[i])
}

/// The hex text of `b` has two digits a byte, each a lowercase hex digit.
pub proof fn lemma_hex_shape(b: Seq<u8>)
    ensures
        hex_of(b).len() == 2 * b.len(),
        forall|i: int| 0 <= i < hex_of(b).len() ==> hex_digits().contains(#[trigger] hex_of(b)[i]),
    decreases b.len(),
{
    if b.len() > 0 {
        lemma_hex_shape(b.drop_last());
        let front = hex_of(b.drop_last());
        let hi = hex_digits()[(b.last() / 16) as int];
        let lo = hex_digits()[(b.last() % 16) as int];
        assert(hex_digits().contains(hi));
        assert(hex_digits().contains(lo));
        assert forall|i: int| 0 <= i < hex_of(b).len() implies hex_digits().contains(
            #[trigger] hex_of(b)[i],
        ) by {
            if i < front.len() {
                assert(hex_of(b)[i] == front[i]);
            } else if i == front.len() {
                assert(hex_of(b)[i] == hi);
            } else {
                assert(hex_of(b)[i] == lo);
            }
        }
    }
}

fn hex_digit_text(d: u8) -> (r: &'static str)
    requires
        d < 16,
    ensures
        r@ == seq![hex_digits()[d as int]],
{
    proof {
        reveal_strlit("0123456789abcdef");
    }
    "0123456789abcdef".substring_char(d as usize, d as usize + 1)
}

/// `bytes` in lowercase hex, two digits a byte.
pub fn hex_text(bytes: &Vec<u8>) -> (r: String)
    ensures
        r@ == hex_of(bytes@),
{
    let mut r = String::new();
    let mut i: usize = 0;
    while i < bytes.len()
        invariant
            i <= bytes.len(),
            r@ == hex_of(bytes@.subrange(0, i as int)),
        decreases bytes.len() - i,
    {
        let b = bytes[i];
        r.append(hex_digit_text(b / 16));
        r.append(hex_digit_text(b % 16));
        assert(bytes@.subrange(0, i + 1).drop_last() == bytes@.subrange(0, i as int));
        assert(r@ =~= hex_of(bytes@.subrange(0, i + 1)));
        i = i + 1;
    }
    assert(bytes@.subrange(0, bytes.len() as int) == bytes@);
    r
}

/// Relies on rand's `thread_rng` and `RngCore::fill_bytes`: fills the buffer
/// with bytes from the thread-local generator, which the system seeds. Only
/// the length is known of the result; `thread_rng` panics only where the
/// system has no entropy to seed it with.
#[verifier::external_body]
fn random_bytes() -> (r: Vec<u8>)
    ensures
        r@.len() == ID_BYTES,
{
    let mut bytes = [0u8; ID_BYTES];
    rand::thread_rng().fill_bytes(&mut bytes);
    bytes.to_vec()
}

/// A fresh order id: 32 random bytes in lowercase hex.
pub fn generate_id() -> (r: String)
    ensures
        is_order_id(r@),
        exists|b: Seq<u8>| b.len() == ID_BYTES && r@ == hex_of(b),
{
    let bytes = random_bytes();
    let r = hex_text(&bytes);
    proof {
        lemma_hex_shape(bytes@);
    }
    r
}

} // verus!
