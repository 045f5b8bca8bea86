use crate::analytics::IpAddress;
use crate::text::{
    append_decimal, append_hex, append_signed_decimal, ascii_lowercase, decimal_of, hex_of,
    is_ascii_text, lemma_decimal_is_digits, lemma_decimal_value, lemma_signed_decimal_injective,
    lemma_split_at_last_hyphen, lowercase_of, push_char, signed_decimal_of, to_lowercase,
};
use crate::time::{utc_now, UtcDate};
use sha2::Digest;
use vstd::prelude::*;
use vstd::string::*;

verus! {

/// The SHA-256 digest of a text's UTF-8 bytes, as 64 lowercase hex digits.
pub uninterp spec fn sha256_hex_of(text: Seq<char>) -> Seq<char>;

/// A lowercase hexadecimal digit.
pub open spec fn is_lower_hex_digit(c: char) -> bool {
    '0' <= c <= '9' || 'a' <= c <= 'f'
}

/// A digest as it is written out: 64 lowercase hexadecimal digits.
pub open spec fn is_digest_text(s: Seq<char>) -> bool {
    &&& s.len() == 64
    &&& forall|i: int| 0 <= i < s.len() ==> is_lower_hex_digit(#[trigger] s[i])
}

/// The digest of a text: `sha2::Sha256` over its UTF-8 bytes, written in
/// lowercase hex. The result is a function of the text alone and has the 64
/// digits, 0 to 9 and a to f, of a 256-bit digest.
#[verifier::external_body]
fn sha256_hex(text: &str) -> (r: String)
    ensures
        r@ == sha256_hex_of(text@),
        is_digest_text(r@),
{
    format!("{:x}", sha2::Sha256::digest(text.as_bytes()))
}

/// An address with its identifying part taken away: an IPv4 address with its
/// last octet set to zero, an IPv6 address cut down to its first 64 bits.
pub open spec fn anonymized(ip: IpAddress) -> Seq<char> {
    match ip {
        IpAddress::V4 { octets } => decimal_of(octets[0] as nat) + seq!['.'] + decimal_of(
            octets[1] as nat,
        ) + seq!['.'] + decimal_of(octets[2] as nat) + seq!['.', '0'],
        IpAddress::V6 { segments } => hex_of(segments[0] as nat) + seq![':'] + hex_of(
            segments[1] as nat,
        ) + seq![':'] + hex_of(segments[2] as nat) + seq![':'] + hex_of(segments[3] as nat) + seq![
            ':',
            ':',
        ],
    }
}

/// Anonymize an IP address by removing its last octet (IPv4) or its last 64
/// bits (IPv6).
pub fn anonymize_ip(ip: &IpAddress) -> (r: String)
    ensures
        r@ == anonymized(*ip),
{
    let mut out = String::new();
    match ip {
        IpAddress::V4 { octets } => {
            append_decimal(&mut out, octets[0] as u64);
            push_char(&mut out, '.');
            append_decimal(&mut out, octets[1] as u64);
            push_char(&mut out, '.');
            append_decimal(&mut out, octets[2] as u64);
            push_char(&mut out, '.');
            push_char(&mut out, '0');
            assert(out@ == anonymized(*ip));
        },
        IpAddress::V6 { segments } => {
            append_hex(&mut out, segments[0] as u64);
            push_char(&mut out, ':');
            append_hex(&mut out, segments[1] as u64);
            push_char(&mut out, ':');
            append_hex(&mut out, segments[2] as u64);
            push_char(&mut out, ':');
            append_hex(&mut out, segments[3] as u64);
            push_char(&mut out, ':');
            push_char(&mut out, ':');
            assert(out@ == anonymized(*ip));
        },
    }
    out
}

/// The salt of a day: year, month and day in decimal, joined by hyphens.
pub open spec fn daily_salt(date: UtcDate) -> Seq<char> {
    signed_decimal_of(date.year as int) + seq!['-'] + decimal_of(date.month as nat) + seq!['-']
        + decimal_of(date.day as nat)
}

/// Generate the salt of the given UTC date.
pub fn generate_daily_salt(date: &UtcDate) -> (r: String)
    ensures
        r@ == daily_salt(*date),
{
    let mut out = String::new();
    append_signed_decimal(&mut out, date.year as i64);
    push_char(&mut out, '-');
    append_decimal(&mut out, date.month as u64);
    push_char(&mut out, '-');
    append_decimal(&mut out, date.day as u64);
    assert(out@ == daily_salt(*date));
    out
}

/// A categorical value as it enters the fingerprint: in lowercase, and
/// "unknown" where it is missing.
pub open spec fn category(value: Option<Seq<char>>) -> Seq<char> {
    match value {
        Some(v) => if is_ascii_text(v) {
            ascii_lowercase(v)
        } else {
            lowercase_of(v)
        },
        None => "unknown"@,
    }
}

/// The text that is hashed into a fingerprint: the anonymized address, the
/// device class, the browser family, its major version, the OS family and
/// the salt of the day, joined by colons.
pub open spec fn fingerprint_text(
    date: UtcDate,
    ip: Option<IpAddress>,
    device_type: Option<Seq<char>>,
    browser: Option<Seq<char>>,
    browser_version: Option<Seq<char>>,
    os: Option<Seq<char>>,
) -> Seq<char> {
    (match ip {
        Some(address) => anonymized(address),
        None => "unknown"@,
    }) + seq![':'] + category(device_type) + seq![':'] + category(browser) + seq![':']
        + category(browser_version) + seq![':'] + category(os) + seq![':'] + daily_salt(date)
}

/// The fingerprint of a visitor on a day.
pub open spec fn fingerprint_of(
    date: UtcDate,
    ip: Option<IpAddress>,
    device_type: Option<Seq<char>>,
    browser: Option<Seq<char>>,
    browser_version: Option<Seq<char>>,
    os: Option<Seq<char>>,
) -> Seq<char> {
    sha256_hex_of(fingerprint_text(date, ip, device_type, browser, browser_version, os))
}

/// The text of an optional string slice.
pub open spec fn opt_str(s: Option<&str>) -> Option<Seq<char>> {
    match s {
        Some(t) => Some(t@),
        None => None,
    }
}

/// The address behind an optional reference.
pub open spec fn opt_ip(ip: Option<&IpAddress>) -> Option<IpAddress> {
    match ip {
        Some(address) => Some(*address),
        None => None,
    }
}

fn append_category(out: &mut String, value: Option<&str>)
    ensures
        final(out)@ == old(out)@ + category(opt_str(value)),
{
    match value {
        Some(v) => {
            let lowered = to_lowercase(v);
            out.append(lowered.as_str());
        },
        None => {
            out.append("unknown");
        },
    }
}

/// The fingerprint of a visitor on the given UTC date.
///
/// Uses: anonymized IP + device type + browser family + major version + OS
/// family + the salt of the day. An address that could not be parsed enters
/// as "unknown", and so does any other value that is missing.
pub fn generate_fingerprint_on(
    date: &UtcDate,
    ip: Option<&IpAddress>,
    device_type: Option<&str>,
    browser: Option<&str>,
    browser_version: Option<&str>,
    os: Option<&str>,
) -> (r: String)
    ensures
        r@ == fingerprint_of(
            *date,
            opt_ip(ip),
            opt_str(device_type),
            opt_str(browser),
            opt_str(browser_version),
            opt_str(os),
        ),
        is_digest_text(r@),
{
    let mut text: String = match ip {
        Some(address) => anonymize_ip(address),
        None => "unknown".to_owned(),
    };
    push_char(&mut text, ':');
    append_category(&mut text, device_type);
    push_char(&mut text, ':');
    append_category(&mut text, browser);
    push_char(&mut text, ':');
    append_category(&mut text, browser_version);
    push_char(&mut text, ':');
    append_category(&mut text, os);
    push_char(&mut text, ':');
    let salt = generate_daily_salt(date);
    text.append(salt.as_str());
    assert(text@ =~= fingerprint_text(
        *date,
        opt_ip(ip),
        opt_str(device_type),
        opt_str(browser),
        opt_str(browser_version),
        opt_str(os),
    ));
    sha256_hex(text.as_str())
}

/// The fingerprint of a visitor today, by the clock: that of today's UTC date.
pub fn generate_fingerprint(
    ip: Option<&IpAddress>,
    device_type: Option<&str>,
    browser: Option<&str>,
    browser_version: Option<&str>,
    os: Option<&str>,
) -> (r: String)
    ensures
        exists|date: UtcDate|
            r@ == #[trigger] fingerprint_of(
                date,
                opt_ip(ip),
                opt_str(device_type),
                opt_str(browser),
                opt_str(browser_version),
                opt_str(os),
            ),
        is_digest_text(r@),
{
    let now = utc_now();
    generate_fingerprint_on(&now.date, ip, device_type, browser, browser_version, os)
}

/// Two visitors whose coarsened attributes agree have the same fingerprint on
/// the same UTC date: nothing else enters it.
pub proof fn law_fingerprint_same_day(
    date: UtcDate,
    ip1: Option<IpAddress>,
    ip2: Option<IpAddress>,
    device1: Option<Seq<char>>,
    device2: Option<Seq<char>>,
    browser1: Option<Seq<char>>,
    browser2: Option<Seq<char>>,
    version1: Option<Seq<char>>,
    version2: Option<Seq<char>>,
    os1: Option<Seq<char>>,
    os2: Option<Seq<char>>,
)
    requires
        ip1 is Some <==> ip2 is Some,
        ip1 is Some ==> anonymized(ip1->0) == anonymized(ip2->0),
        category(device1) == category(device2),
        category(browser1) == category(browser2),
        category(version1) == category(version2),
        category(os1) == category(os2),
    ensures
        fingerprint_of(date, ip1, device1, browser1, version1, os1) == fingerprint_of(
            date,
            ip2,
            device2,
            browser2,
            version2,
            os2,
        ),
{
}

/// Letter case does not enter the fingerprint, and a missing value counts as
/// "unknown": two ASCII texts that differ in the case of their letters only
/// are one category, and so are no value and the text "unknown".
pub proof fn law_category_ignores_case(a: Seq<char>, b: Seq<char>)
    requires
        is_ascii_text(a),
        is_ascii_text(b),
        ascii_lowercase(a) == ascii_lowercase(b),
    ensures
        category(Some(a)) == category(Some(b)),
        category(None) == category(Some("unknown"@)),
        category(None) == category(Some("UNKNOWN"@)),
{
    reveal_strlit("unknown");
    reveal_strlit("UNKNOWN");
    assert(is_ascii_text("unknown"@));
    assert(is_ascii_text("UNKNOWN"@));
    assert(ascii_lowercase("unknown"@) =~= "unknown"@);
    assert(ascii_lowercase("UNKNOWN"@) =~= "unknown"@);
}

/// Two days with the same salt are the same day.
pub proof fn lemma_salt_is_injective(a: UtcDate, b: UtcDate)
    requires
        daily_salt(a) == daily_salt(b),
    ensures
        a == b,
{
    lemma_decimal_is_digits(a.month as nat);
    lemma_decimal_is_digits(b.month as nat);
    lemma_decimal_is_digits(a.day as nat);
    lemma_decimal_is_digits(b.day as nat);
    let head_a = signed_decimal_of(a.year as int) + seq!['-'] + decimal_of(a.month as nat);
    let head_b = signed_decimal_of(b.year as int) + seq!['-'] + decimal_of(b.month as nat);
    lemma_split_at_last_hyphen(
        head_a,
        decimal_of(a.day as nat),
        head_b,
        decimal_of(b.day as nat),
    );
    lemma_split_at_last_hyphen(
        signed_decimal_of(a.year as int),
        decimal_of(a.month as nat),
        signed_decimal_of(b.year as int),
        decimal_of(b.month as nat),
    );
    lemma_decimal_value(a.day as nat);
    lemma_decimal_value(b.day as nat);
    lemma_decimal_value(a.month as nat);
    lemma_decimal_value(b.month as nat);
    lemma_signed_decimal_injective(a.year as int, b.year as int);
}

/// The salt rotates: on two different UTC dates, different texts are hashed
/// into the fingerprint of the same visitor. (That the digests then differ is
/// a matter of the hash function, and is not claimed.)
pub proof fn law_fingerprint_text_rotates(
    first: UtcDate,
    second: UtcDate,
    ip: Option<IpAddress>,
    device_type: Option<Seq<char>>,
    browser: Option<Seq<char>>,
    browser_version: Option<Seq<char>>,
    os: Option<Seq<char>>,
)
    requires
        first != second,
    ensures
        fingerprint_text(first, ip, device_type, browser, browser_version, os) != fingerprint_text(
            second,
            ip,
            device_type,
            browser,
            browser_version,
            os,
        ),
{
    let t1 = fingerprint_text(first, ip, device_type, browser, browser_version, os);
    let t2 = fingerprint_text(second, ip, device_type, browser, browser_version, os);
    if t1 == t2 {
        let s1 = daily_salt(first);
        let s2 = daily_salt(second);
        let head = t1.subrange(0, t1.len() - s1.len());
        assert(t1 == head + s1);
        assert(t2 == head + s2);
        assert(s1 =~= s2) by {
            assert(s1.len() == s2.len());
            assert forall|i: int| 0 <= i < s1.len() implies s1[i] == s2[i] by {
                assert(t1[head.len() + i] == s1[i]);
                assert(t2[head.len() + i] == s2[i]);
            }
        }
        lemma_salt_is_injective(first, second);
    }
}

} // verus!
