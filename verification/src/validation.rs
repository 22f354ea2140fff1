//! Validation of configuration values and of the `X-PAYMENT` header.
//!
//! Byte lengths and byte tests are taken over the UTF-8 encoding of the
//! text; every character these checks accept is ASCII, so a test over the
//! bytes accepts exactly the texts a test over the characters accepts.

use crate::amount::Amount;
use crate::error::ValidationError;
use crate::networks::{is_supported_network, network_supported};
use crate::text::{
    alnum_byte, chars_of, contains, contains_seq, control, has_char, has_prefix, hex_byte,
    is_alnum_byte, is_control, is_hex_byte, is_white_space, lemma_trimmed_ends,
    lemma_split_nonempty, lemma_trimmed_fixed, lemma_trimmed_is_part, occurs_at, same_chars,
    slice_of, split, split_chars, starts_with, string_of, trim, trim_bounds, trimmed, views,
};
use crate::error::views_of;
use vstd::prelude::*;
use vstd::string::StringSliceAdditionalSpecFns;

verus! {

// ---------------------------------------------------------------------------
// Ethereum addresses
// ---------------------------------------------------------------------------

/// The outcome of validating an Ethereum address with these UTF-8 bytes:
/// non-empty, 42 bytes, `0x` or `0X`, then 40 hexadecimal digits. The checks
/// are made in this order and the first that fails is reported.
pub open spec fn address_check(b: Seq<u8>) -> Result<(), ValidationError> {
    if b.len() == 0 {
        Err(ValidationError::EmptyAddress)
    } else if b.len() != 42 {
        Err(ValidationError::AddressLength { len: b.len() as usize })
    } else if !(b[0] == 48 && (b[1] == 120 || b[1] == 88)) {
        Err(ValidationError::AddressPrefix)
    } else if exists|i: int| 2 <= i < 42 && !is_hex_byte(#[trigger] b[i]) {
        Err(ValidationError::AddressCharacters)
    } else {
        Ok(())
    }
}

/// Validates the format of an Ethereum address.
pub fn validate_ethereum_address(address: &str) -> (r: Result<(), ValidationError>)
    ensures
        r == address_check(address.spec_bytes()),
{
    let b = address.as_bytes();
    if b.len() == 0 {
        return Err(ValidationError::EmptyAddress);
    }
    if b.len() != 42 {
        return Err(ValidationError::AddressLength { len: b.len() });
    }
    if !(b[0] == 48 && (b[1] == 120 || b[1] == 88)) {
        return Err(ValidationError::AddressPrefix);
    }
    let mut i: usize = 2;
    while i < 42
        invariant
            2 <= i <= 42,
            b@.len() == 42,
            b@ == address.spec_bytes(),
            b@[0] == 48 && (b@[1] == 120 || b@[1] == 88),
            forall|j: int| 2 <= j < i ==> is_hex_byte(#[trigger] b@[j]),
        decreases 42 - i,
    {
        if !hex_byte(b[i]) {
            assert(!is_hex_byte(address.spec_bytes()[i as int]));
            return Err(ValidationError::AddressCharacters);
        }
        i = i + 1;
    }
    Ok(())
}

// ---------------------------------------------------------------------------
// URLs
// ---------------------------------------------------------------------------

/// The bytes of `http://`.
pub open spec fn http_prefix() -> Seq<u8> {
    seq![104u8, 116u8, 116u8, 112u8, 58u8, 47u8, 47u8]
}

/// The bytes of `https://`.
pub open spec fn https_prefix() -> Seq<u8> {
    seq![104u8, 116u8, 116u8, 112u8, 115u8, 58u8, 47u8, 47u8]
}

/// Space, line feed, carriage return or tab.
pub open spec fn is_url_space(b: u8) -> bool {
    b == 32 || b == 10 || b == 13 || b == 9
}

/// The outcome of validating a facilitator URL with these UTF-8 bytes:
/// non-empty, an `http://` or `https://` scheme, at least 8 bytes, and no
/// space, line feed, carriage return or tab.
pub open spec fn url_check(b: Seq<u8>) -> Result<(), ValidationError> {
    if b.len() == 0 {
        Err(ValidationError::EmptyUrl)
    } else if !has_prefix(b, http_prefix()) && !has_prefix(b, https_prefix()) {
        Err(ValidationError::UrlScheme)
    } else if b.len() < 8 {
        Err(ValidationError::UrlTooShort)
    } else if exists|i: int| 0 <= i < b.len() && is_url_space(#[trigger] b[i]) {
        Err(ValidationError::UrlWhitespace)
    } else {
        Ok(())
    }
}

fn bytes_start_with(b: &[u8], p: &[u8]) -> (r: bool)
    ensures
        r == has_prefix(b@, p@),
{
    if p.len() > b.len() {
        return false;
    }
    let mut k: usize = 0;
    while k < p.len()
        invariant
            p@.len() <= b@.len(),
            k <= p@.len(),
            forall|j: int| 0 <= j < k ==> b@[j] == p@[j],
        decreases p.len() - k,
    {
        if b[k] != p[k] {
            assert(b@.subrange(0, p@.len() as int)[k as int] != p@[k as int]);
            return false;
        }
        k = k + 1;
    }
    assert(b@.subrange(0, p@.len() as int) =~= p@);
    true
}

fn http_bytes() -> (r: Vec<u8>)
    ensures
        r@ == http_prefix(),
{
    let mut r = Vec::new();
    r.push(104u8);
    r.push(116u8);
    r.push(116u8);
    r.push(112u8);
    r.push(58u8);
    r.push(47u8);
    r.push(47u8);
    assert(r@ =~= http_prefix());
    r
}

fn https_bytes() -> (r: Vec<u8>)
    ensures
        r@ == https_prefix(),
{
    let mut r = Vec::new();
    r.push(104u8);
    r.push(116u8);
    r.push(116u8);
    r.push(112u8);
    r.push(115u8);
    r.push(58u8);
    r.push(47u8);
    r.push(47u8);
    assert(r@ =~= https_prefix());
    r
}

/// Validates the format of a URL.
pub fn validate_url(url: &str) -> (r: Result<(), ValidationError>)
    ensures
        r == url_check(url.spec_bytes()),
{
    let b = url.as_bytes();
    if b.len() == 0 {
        return Err(ValidationError::EmptyUrl);
    }
    let http = http_bytes();
    let https = https_bytes();
    if !bytes_start_with(b, &http) && !bytes_start_with(b, &https) {
        return Err(ValidationError::UrlScheme);
    }
    if b.len() < 8 {
        return Err(ValidationError::UrlTooShort);
    }
    let mut i: usize = 0;
    while i < b.len()
        invariant
            i <= b@.len(),
            b@ == url.spec_bytes(),
            b@.len() >= 8,
            has_prefix(b@, http_prefix()) || has_prefix(b@, https_prefix()),
            forall|j: int| 0 <= j < i ==> !is_url_space(#[trigger] b@[j]),
        decreases b.len() - i,
    {
        let c = b[i];
        if c == 32 || c == 10 || c == 13 || c == 9 {
            assert(is_url_space(url.spec_bytes()[i as int]));
            return Err(ValidationError::UrlWhitespace);
        }
        i = i + 1;
    }
    Ok(())
}

// ---------------------------------------------------------------------------
// Networks
// ---------------------------------------------------------------------------

/// Whether `r` is the outcome of validating the network name `network`:
/// rejected as empty, rejected as unsupported (the error names the network),
/// or accepted when it is one of the supported networks.
pub open spec fn network_outcome(network: Seq<char>, r: Result<(), ValidationError>) -> bool {
    if network.len() == 0 {
        r == Err::<(), ValidationError>(ValidationError::EmptyNetwork)
    } else if !is_supported_network(network) {
        r matches Err(ValidationError::UnsupportedNetwork { network: n }) && n@ == network
    } else {
        r is Ok
    }
}

/// Validates that a network name is one `rust_x402` supports.
pub fn validate_network(network: &str) -> (r: Result<(), ValidationError>)
    ensures
        network_outcome(network@, r),
{
    if network.unicode_len() == 0 {
        return Err(ValidationError::EmptyNetwork);
    }
    if !network_supported(network) {
        return Err(ValidationError::UnsupportedNetwork { network: String::from_str(network) });
    }
    Ok(())
}

// ---------------------------------------------------------------------------
// Amounts
// ---------------------------------------------------------------------------

/// The outcome of validating an amount: not negative, at most one billion,
/// at most six decimal places.
pub open spec fn amount_check(a: Amount) -> Result<(), ValidationError> {
    if a.is_negative() {
        Err(ValidationError::NegativeAmount)
    } else if a.exceeds(1_000_000_000) {
        Err(ValidationError::AmountTooLarge { amount: a })
    } else if a.scale > 6 {
        Err(ValidationError::TooManyDecimals { scale: a.scale })
    } else {
        Ok(())
    }
}

/// Validates the range and precision of a payment amount.
pub fn validate_amount(amount: Amount) -> (r: Result<(), ValidationError>)
    requires
        amount.wf(),
    ensures
        r == amount_check(amount),
{
    if amount.below_zero() {
        return Err(ValidationError::NegativeAmount);
    }
    if amount.greater_than(1_000_000_000) {
        return Err(ValidationError::AmountTooLarge { amount });
    }
    if amount.scale > 6 {
        return Err(ValidationError::TooManyDecimals { scale: amount.scale });
    }
    Ok(())
}

// ---------------------------------------------------------------------------
// Resource paths
// ---------------------------------------------------------------------------

/// The longest resource path accepted, in bytes.
pub const MAX_PATH_LENGTH: usize = 2048;

/// A control character other than line feed, carriage return and tab.
pub open spec fn is_forbidden_control(c: char) -> bool {
    is_control(c) && c != '\n' && c != '\r' && c != '\t'
}

/// Two consecutive dots.
pub open spec fn dot_dot() -> Seq<char> {
    seq!['.', '.']
}

/// A full `http://` or `https://` URL.
pub open spec fn is_full_url(t: Seq<char>) -> bool {
    has_prefix(t, "http://"@) || has_prefix(t, "https://"@)
}

/// The outcome of validating and sanitising a resource (a path or a full
/// URL) with characters `s` and byte length `byte_len`. It is rejected when
/// only white space remains after trimming, when it holds `..` or a NUL
/// character, when it is longer than 2048 bytes, or when it holds a control
/// character other than line feed, carriage return and tab, in this order.
/// Otherwise the result is the trimmed text, kept as it is when it begins
/// with `/` or is a full URL, else with a `/` put in front.
pub open spec fn resource_check(s: Seq<char>, byte_len: nat) -> Result<Seq<char>, ValidationError> {
    let t = trimmed(s);
    if t.len() == 0 {
        Err(ValidationError::EmptyResource)
    } else if contains_seq(s, dot_dot()) || s.contains('\0') {
        Err(ValidationError::ResourceCharacters)
    } else if byte_len > 2048 {
        Err(ValidationError::ResourceTooLong)
    } else if exists|i: int| 0 <= i < s.len() && is_forbidden_control(#[trigger] s[i]) {
        Err(ValidationError::ResourceCharacters)
    } else if t[0] == '/' || is_full_url(t) {
        Ok(t)
    } else {
        Ok(seq!['/'] + t)
    }
}

/// Validates a resource path against path traversal and malformed input, and
/// returns it trimmed and absolute.
pub fn validate_resource_path(resource: &str) -> (r: Result<String, ValidationError>)
    ensures
        match r {
            Ok(t) => resource_check(resource@, resource.spec_bytes().len()) == Ok::<
                Seq<char>,
                ValidationError,
            >(t@),
            Err(e) => resource_check(resource@, resource.spec_bytes().len()) == Err::<
                Seq<char>,
                ValidationError,
            >(e),
        },
{
    let v = chars_of(resource);
    let (a, b) = trim_bounds(&v);
    if a == b {
        return Err(ValidationError::EmptyResource);
    }
    let mut dots: Vec<char> = Vec::new();
    dots.push('.');
    dots.push('.');
    assert(dots@ =~= dot_dot());
    if contains(&v, &dots) || has_char(&v, '\0') {
        return Err(ValidationError::ResourceCharacters);
    }
    if resource.as_bytes().len() > MAX_PATH_LENGTH {
        return Err(ValidationError::ResourceTooLong);
    }
    let mut i: usize = 0;
    while i < v.len()
        invariant
            i <= v@.len(),
            v@ == resource@,
            a < b <= v@.len(),
            v@.subrange(a as int, b as int) == trimmed(v@),
            !contains_seq(v@, dot_dot()),
            !v@.contains('\0'),
            resource.spec_bytes().len() <= 2048,
            forall|j: int| 0 <= j < i ==> !is_forbidden_control(#[trigger] v@[j]),
        decreases v.len() - i,
    {
        let c = v[i];
        if control(c) && c != '\n' && c != '\r' && c != '\t' {
            assert(is_forbidden_control(resource@[i as int]));
            return Err(ValidationError::ResourceCharacters);
        }
        i = i + 1;
    }
    let t = slice_of(&v, a, b);
    let http = chars_of("http://");
    let https = chars_of("https://");
    if t[0] == '/' || starts_with(&t, &http) || starts_with(&t, &https) {
        Ok(string_of(&t))
    } else {
        let mut p: Vec<char> = Vec::new();
        p.push('/');
        let mut k: usize = 0;
        while k < t.len()
            invariant
                k <= t@.len(),
                p@ == seq!['/'] + t@.subrange(0, k as int),
            decreases t.len() - k,
        {
            p.push(t[k]);
            k = k + 1;
            assert(p@ =~= seq!['/'] + t@.subrange(0, k as int));
        }
        assert(t@.subrange(0, t@.len() as int) =~= t@);
        Ok(string_of(&p))
    }
}

/// What validation accepts is free of path traversal and malformed input: it
/// begins with `/` or is a full URL, holds no `..`, no NUL and no control character other than
/// line feed, carriage return and tab, and neither begins nor ends with white
/// space.
pub proof fn lemma_resource_path_sanitized(s: Seq<char>, byte_len: nat, t: Seq<char>)
    requires
        resource_check(s, byte_len) == Ok::<Seq<char>, ValidationError>(t),
    ensures
        t.len() > 0,
        t[0] == '/' || is_full_url(t),
        !contains_seq(t, dot_dot()),
        !t.contains('\0'),
        forall|i: int| 0 <= i < t.len() ==> !is_forbidden_control(#[trigger] t[i]),
        !is_white_space(t[0]),
        !is_white_space(t.last()),
{
    let tr = trimmed(s);
    let ab = lemma_trimmed_is_part(s);
    lemma_trimmed_ends(s);
    let (a, b) = ab;
    let kept = tr[0] == '/' || is_full_url(tr);
    // every character of the trimmed part is a character of `s`
    assert forall|i: int| 0 <= i < tr.len() implies tr[i] == s[a + i] by {}
    if kept {
        assert(t == tr);
    } else {
        assert(t == seq!['/'] + tr);
        assert forall|i: int| 1 <= i < t.len() implies t[i] == tr[i - 1] by {}
    }
    // a character of `t` other than its leading `/` is a character of `s`
    assert forall|i: int| 0 <= i < t.len() && t[i] != '/' implies exists|j: int|
        0 <= j < s.len() && s[j] == t[i] by {
        if kept {
            assert(s[a + i] == t[i]);
        } else {
            assert(s[a + i - 1] == t[i]);
        }
    }
    assert forall|i: int| 0 <= i < t.len() implies !is_forbidden_control(#[trigger] t[i]) by {
        if t[i] != '/' {
            let j = choose|j: int| 0 <= j < s.len() && s[j] == t[i];
            assert(!is_forbidden_control(s[j]));
        }
    }
    if t.contains('\0') {
        let i = choose|i: int| 0 <= i < t.len() && t[i] == '\0';
        let j = choose|j: int| 0 <= j < s.len() && s[j] == t[i];
        assert(s.contains('\0'));
    }
    if contains_seq(t, dot_dot()) {
        let i = choose|i: int| occurs_at(t, dot_dot(), i);
        assert(t.subrange(i, i + 2)[0] == '.' && t.subrange(i, i + 2)[1] == '.');
        let o: int = if kept {
            a
        } else {
            a - 1
        };
        assert(t[i] == '.' && t[i + 1] == '.');
        assert(i != 0 || kept);
        assert(s[o + i] == t[i]);
        assert(s[o + i + 1] == t[i + 1]);
        assert(s.subrange(o + i, o + i + 2) =~= dot_dot());
        assert(occurs_at(s, dot_dot(), o + i));
    }
}

/// Validating what validation accepted gives it back unchanged, as long as
/// it is within the length limit.
pub proof fn lemma_resource_path_idempotent(
    s: Seq<char>,
    byte_len: nat,
    t: Seq<char>,
    t_byte_len: nat,
)
    requires
        resource_check(s, byte_len) == Ok::<Seq<char>, ValidationError>(t),
        t_byte_len <= 2048,
    ensures
        resource_check(t, t_byte_len) == Ok::<Seq<char>, ValidationError>(t),
{
    lemma_resource_path_sanitized(s, byte_len, t);
    lemma_trimmed_fixed(t);
}

// ---------------------------------------------------------------------------
// The X-PAYMENT header
// ---------------------------------------------------------------------------

/// The largest `X-PAYMENT` header accepted, in bytes.
pub const MAX_PAYMENT_HEADER_BYTES: usize = 16384;

/// A byte of the Base64 alphabet: letters, digits, `+`, `/` and `=`.
pub open spec fn is_base64_byte(b: u8) -> bool {
    is_alnum_byte(b) || b == 43 || b == 47 || b == 61
}

/// The outcome of validating an `X-PAYMENT` header with these UTF-8 bytes:
/// non-empty, at most 16384 bytes, only Base64 characters.
pub open spec fn payment_header_check(b: Seq<u8>) -> Result<(), ValidationError> {
    if b.len() == 0 {
        Err(ValidationError::EmptyPaymentHeader)
    } else if b.len() > 16384 {
        Err(ValidationError::PaymentHeaderTooLarge { len: b.len() as usize })
    } else if exists|i: int| 0 <= i < b.len() && !is_base64_byte(#[trigger] b[i]) {
        Err(ValidationError::PaymentHeaderCharacters)
    } else {
        Ok(())
    }
}

/// Validates the size and alphabet of an `X-PAYMENT` header value.
pub fn validate_payment_header(payment_b64: &str) -> (r: Result<(), ValidationError>)
    ensures
        r == payment_header_check(payment_b64.spec_bytes()),
{
    let b = payment_b64.as_bytes();
    if b.len() == 0 {
        return Err(ValidationError::EmptyPaymentHeader);
    }
    if b.len() > MAX_PAYMENT_HEADER_BYTES {
        return Err(ValidationError::PaymentHeaderTooLarge { len: b.len() });
    }
    let mut i: usize = 0;
    while i < b.len()
        invariant
            i <= b@.len() <= 16384,
            b@ == payment_b64.spec_bytes(),
            b@.len() > 0,
            forall|j: int| 0 <= j < i ==> is_base64_byte(#[trigger] b@[j]),
        decreases b.len() - i,
    {
        let c = b[i];
        if !(alnum_byte(c) || c == 43 || c == 47 || c == 61) {
            assert(!is_base64_byte(payment_b64.spec_bytes()[i as int]));
            return Err(ValidationError::PaymentHeaderCharacters);
        }
        i = i + 1;
    }
    Ok(())
}

// ---------------------------------------------------------------------------
// Chain identifiers
// ---------------------------------------------------------------------------

/// The network of a chain identifier: 8453 is Base mainnet and 84532 is
/// Base Sepolia; any other identifier is rejected.
pub open spec fn chain_network(chain_id: u64) -> Option<Seq<char>> {
    if chain_id == 8453 {
        Some(crate::networks::base_mainnet())
    } else if chain_id == 84532 {
        Some(crate::networks::base_sepolia())
    } else {
        None
    }
}

/// The network name of a chain identifier (`x402_network_id`).
pub fn chain_id_to_network(chain_id: u64) -> (r: Result<String, ValidationError>)
    ensures
        match r {
            Ok(n) => chain_network(chain_id) == Some(n@),
            Err(e) => chain_network(chain_id) is None && e == ValidationError::UnsupportedChainId {
                chain_id,
            },
        },
{
    if chain_id == 8453 {
        Ok(crate::networks::base_mainnet_name())
    } else if chain_id == 84532 {
        Ok(crate::networks::base_sepolia_name())
    } else {
        Err(ValidationError::UnsupportedChainId { chain_id })
    }
}

// ---------------------------------------------------------------------------
// Accept header priorities
// ---------------------------------------------------------------------------

/// `*/*`.
pub open spec fn wildcard() -> Seq<char> {
    seq!['*', '/', '*']
}

/// `q=`.
pub open spec fn q_prefix() -> Seq<char> {
    seq!['q', '=']
}

/// Whether the media range `mime` of an Accept header answers for the media
/// type `media`: the same text, or `media` followed by `/` (so `text`
/// answers for `text/html`).
pub open spec fn media_matches(mime: Seq<char>, media: Seq<char>) -> bool {
    ||| mime == media
    ||| (media == wildcard() && mime == wildcard())
    ||| (has_prefix(mime, media) && has_prefix(
        mime.subrange(media.len() as int, mime.len() as int),
        seq!['/'],
    ))
}

/// The values of the `q=` parameters among `params`, in order, each trimmed.
pub open spec fn q_texts(params: Seq<Seq<char>>) -> Seq<Seq<char>>
    decreases params.len(),
{
    if params.len() == 0 {
        Seq::<Seq<char>>::empty()
    } else {
        let p = trimmed(params[0]);
        let rest = q_texts(params.drop_first());
        if has_prefix(p, q_prefix()) {
            seq![trimmed(p.subrange(2, p.len() as int))] + rest
        } else {
            rest
        }
    }
}

/// The `q=` values of the first of these comma-separated ranges whose media
/// range answers for `media`, or `None` when none does.
pub open spec fn range_lookup(ranges: Seq<Seq<char>>, media: Seq<char>) -> Option<Seq<Seq<char>>>
    decreases ranges.len(),
{
    if ranges.len() == 0 {
        None
    } else {
        let params = split(trimmed(ranges[0]), ';');
        if media_matches(trimmed(params[0]), media) {
            Some(q_texts(params.drop_first()))
        } else {
            range_lookup(ranges.drop_first(), media)
        }
    }
}

/// The `q=` values that decide the priority of `media` in an Accept header:
/// those of the first range that answers for `media`, else those of the first
/// `*/*` range; `None` when neither exists. The priority is the last of these
/// values that reads as a number, clamped to `[0, 1]`; 1 when there is none;
/// 0 when there is no range at all.
pub open spec fn accept_q_texts(header: Seq<char>, media: Seq<char>) -> Option<Seq<Seq<char>>> {
    let ranges = split(header, ',');
    match range_lookup(ranges, media) {
        Some(q) => Some(q),
        None => if media != wildcard() {
            range_lookup(ranges, wildcard())
        } else {
            None
        },
    }
}

fn char_vec(a: char, b: char, c: Option<char>) -> (r: Vec<char>)
    ensures
        r@ == (match c {
            Some(x) => seq![a, b, x],
            None => seq![a, b],
        }),
{
    let mut r: Vec<char> = Vec::new();
    r.push(a);
    r.push(b);
    match c {
        Some(x) => r.push(x),
        None => {},
    }
    assert(r@ =~= (match c {
        Some(x) => seq![a, b, x],
        None => seq![a, b],
    }));
    r
}

fn matches_media(mime: &[char], media: &[char]) -> (r: bool)
    ensures
        r == media_matches(mime@, media@),
{
    if same_chars(mime, media) {
        return true;
    }
    let star = char_vec('*', '/', Some('*'));
    if same_chars(media, &star) && same_chars(mime, &star) {
        return true;
    }
    if starts_with(mime, media) {
        let rest = slice_of(mime, media.len(), mime.len());
        let mut slash: Vec<char> = Vec::new();
        slash.push('/');
        assert(slash@ =~= seq!['/']);
        return starts_with(&rest, &slash);
    }
    false
}

pub(crate) fn q_values_of(params: &Vec<Vec<char>>) -> (r: Vec<Vec<char>>)
    requires
        params@.len() >= 1,
    ensures
        views(r@) == q_texts(views(params@).drop_first()),
{
    let q = char_vec('q', '=', None);
    let mut out: Vec<Vec<char>> = Vec::new();
    let mut k: usize = 1;
    let ghost all = views(params@).drop_first();
    proof {
        assert(views(params@).subrange(1, params@.len() as int) =~= all);
    }
    while k < params.len()
        invariant
            1 <= k <= params@.len(),
            all == views(params@).drop_first(),
            q@ == q_prefix(),
            q_texts(all) =~= views(out@) + q_texts(
                views(params@).subrange(k as int, params@.len() as int),
            ),
        decreases params.len() - k,
    {
        let ghost rest = views(params@).subrange(k as int, params@.len() as int);
        proof {
            assert(rest.drop_first() =~= views(params@).subrange(k + 1, params@.len() as int));
            assert(rest[0] == params@[k as int]@);
        }
        let p = trim(&params[k]);
        if starts_with(&p, &q) {
            let tail = slice_of(&p, 2, p.len());
            let value = trim(&tail);
            let ghost before = views(out@);
            out.push(value);
            proof {
                assert(views(out@) =~= before + seq![value@]);
            }
        }
        k = k + 1;
    }
    proof {
        assert(views(params@).subrange(params@.len() as int, params@.len() as int)
            =~= Seq::<Seq<char>>::empty());
    }
    out
}

fn lookup_ranges(ranges: &Vec<Vec<char>>, media: &[char]) -> (r: Option<Vec<Vec<char>>>)
    ensures
        match r {
            Some(q) => range_lookup(views(ranges@), media@) == Some(views(q@)),
            None => range_lookup(views(ranges@), media@) is None,
        },
{
    let mut i: usize = 0;
    proof {
        assert(views(ranges@).subrange(0, ranges@.len() as int) =~= views(ranges@));
    }
    while i < ranges.len()
        invariant
            i <= ranges@.len(),
            range_lookup(views(ranges@), media@) == range_lookup(
                views(ranges@).subrange(i as int, ranges@.len() as int),
                media@,
            ),
        decreases ranges.len() - i,
    {
        let ghost rest = views(ranges@).subrange(i as int, ranges@.len() as int);
        proof {
            assert(rest.drop_first() =~= views(ranges@).subrange(i + 1, ranges@.len() as int));
            assert(rest[0] == ranges@[i as int]@);
        }
        let part = trim(&ranges[i]);
        let params = split_chars(&part, ';');
        proof {
            lemma_split_nonempty(part@, ';');
        }
        let mime = trim(&params[0]);
        if matches_media(&mime, media) {
            let q = q_values_of(&params);
            return Some(q);
        }
        i = i + 1;
    }
    None
}

fn strings_of(v: &Vec<Vec<char>>) -> (r: Vec<String>)
    ensures
        views_of(r@) == views(v@),
{
    let mut r: Vec<String> = Vec::new();
    let mut i: usize = 0;
    while i < v.len()
        invariant
            i <= v@.len(),
            views_of(r@) =~= views(v@).subrange(0, i as int),
        decreases v.len() - i,
    {
        let s = string_of(&v[i]);
        let ghost before = r@;
        r.push(s);
        proof {
            assert(r@ =~= before.push(s));
            assert(views_of(r@) =~= views_of(before).push(s@));
            assert(views(v@).subrange(0, i + 1) =~= views(v@).subrange(0, i as int).push(
                v@[i as int]@,
            ));
        }
        i = i + 1;
    }
    r
}

/// The `q=` values that decide the priority of `media_type` in the Accept
/// header `accept_header` (see [`accept_q_texts`]), or `None` when no range of
/// the header answers for it, not even `*/*`.
pub fn accept_q_values(accept_header: &str, media_type: &str) -> (r: Option<Vec<String>>)
    ensures
        match r {
            Some(q) => accept_q_texts(accept_header@, media_type@) == Some(views_of(q@)),
            None => accept_q_texts(accept_header@, media_type@) is None,
        },
{
    let header = chars_of(accept_header);
    let media = chars_of(media_type);
    let ranges = split_chars(&header, ',');
    match lookup_ranges(&ranges, &media) {
        Some(q) => Some(strings_of(&q)),
        None => {
            let star = char_vec('*', '/', Some('*'));
            if !same_chars(&media, &star) {
                match lookup_ranges(&ranges, &star) {
                    Some(q) => Some(strings_of(&q)),
                    None => None,
                }
            } else {
                None
            }
        },
    }
}

} // verus!
