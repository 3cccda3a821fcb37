use vstd::prelude::*;
use vstd::string::*;

verus! {

/// Relies on `rand::random`: a fresh value drawn from the thread-local
/// generator. Nothing can be promised of a random value.
pub assume_specification<T>[ rand::random::<T> ]() -> (r: T)
    where
        rand::distributions::Standard: rand::distributions::Distribution<T>,
;

/// Relies on `uuid::Uuid::new_v4` and the hyphenated rendering its
/// `Display` uses: a fresh random identity token of exactly 36
/// characters.
#[verifier::external_body]
pub fn fresh_uuid_string() -> (r: String)
    ensures
        r@.len() == 36,
{
    uuid::Uuid::new_v4().to_string()
}

/// The sixteen lowercase hexadecimal digit characters.
pub open spec fn spec_hex_char(d: int) -> char {
    if d < 10 {
        crate::text::spec_digit_char(d)
    } else if d == 10 {
        'a'
    } else if d == 11 {
        'b'
    } else if d == 12 {
        'c'
    } else if d == 13 {
        'd'
    } else if d == 14 {
        'e'
    } else {
        'f'
    }
}

/// Two lowercase hexadecimal digits of a byte.
pub open spec fn spec_hex2(b: u8) -> Seq<char> {
    seq![spec_hex_char(b as int / 16), spec_hex_char(b as int % 16)]
}

fn hex_digit(d: u8) -> (r: String)
    requires
        d < 16,
    ensures
        r@ == seq![spec_hex_char(d as int)],
{
    let table = "0123456789abcdef";
    proof {
        reveal_strlit("0123456789abcdef");
    }
    let piece = table.substring_char(d as usize, (d + 1) as usize);
    proof {
        assert(piece@ =~= seq![table@[d as int]]);
    }
    String::from_str(piece)
}

/// The text of a hardware address generated by this system: the fixed
/// locally-administered prefix reserved for its generated addresses,
/// followed by three random bytes in lowercase hexadecimal.
pub open spec fn spec_mac_str(b1: u8, b2: u8, b3: u8) -> Seq<char> {
    "52:54:00:"@ + spec_hex2(b1) + ":"@ + spec_hex2(b2) + ":"@ + spec_hex2(b3)
}

/// A hardware address of the shape this system generates, for some
/// triple of bytes.
pub open spec fn is_generated_mac(s: Seq<char>) -> bool {
    exists|b1: u8, b2: u8, b3: u8| s == spec_mac_str(b1, b2, b3)
}

/// A generated hardware address always has 17 characters and carries the
/// reserved locally-administered prefix.
pub proof fn lemma_generated_mac_shape(s: Seq<char>)
    requires
        is_generated_mac(s),
    ensures
        s.len() == 17,
        s.take(9) == "52:54:00:"@,
{
    let (b1, b2, b3) = choose|b1: u8, b2: u8, b3: u8| s == spec_mac_str(b1, b2, b3);
    reveal_strlit("52:54:00:");
    reveal_strlit(":");
    assert(s.take(9) =~= "52:54:00:"@);
}

/// Render the generated-address text for three given bytes.
pub fn format_generated_mac(b1: u8, b2: u8, b3: u8) -> (r: String)
    ensures
        r@ == spec_mac_str(b1, b2, b3),
        is_generated_mac(r@),
{
    let mut out = String::from_str("52:54:00:");
    let h1a = hex_digit(b1 / 16);
    let h1b = hex_digit(b1 % 16);
    out.append(h1a.as_str());
    out.append(h1b.as_str());
    out.append(":");
    let h2a = hex_digit(b2 / 16);
    let h2b = hex_digit(b2 % 16);
    out.append(h2a.as_str());
    out.append(h2b.as_str());
    out.append(":");
    let h3a = hex_digit(b3 / 16);
    let h3b = hex_digit(b3 % 16);
    out.append(h3a.as_str());
    out.append(h3b.as_str());
    proof {
        assert(seq![spec_hex_char(b1 as int / 16)] + seq![spec_hex_char(b1 as int % 16)]
            =~= spec_hex2(b1));
        assert(seq![spec_hex_char(b2 as int / 16)] + seq![spec_hex_char(b2 as int % 16)]
            =~= spec_hex2(b2));
        assert(seq![spec_hex_char(b3 as int / 16)] + seq![spec_hex_char(b3 as int % 16)]
            =~= spec_hex2(b3));
        assert(out@ =~= spec_mac_str(b1, b2, b3));
    }
    out
}

/// A fresh hardware address in the locally-administered range reserved
/// for this system: the fixed prefix and three random bytes.
pub fn generate_mac_address() -> (r: String)
    ensures
        is_generated_mac(r@),
{
    let b1: u8 = rand::random::<u8>();
    let b2: u8 = rand::random::<u8>();
    let b3: u8 = rand::random::<u8>();
    format_generated_mac(b1, b2, b3)
}

} // verus!
