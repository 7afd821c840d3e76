use vstd::prelude::*;
use vstd::utf8::encode_utf8;

verus! {

/// The SHA-256 digest of a byte string.
pub uninterp spec fn sha256_of(data: Seq<u8>) -> Seq<u8>;

/// The standard (padded) base64 encoding of a byte string.
pub uninterp spec fn base64_of(data: Seq<u8>) -> Seq<char>;

/// The secret derived from the password and the server's salt:
/// `base64(SHA256(password ++ salt))`.
pub open spec fn auth_secret(salt: Seq<char>, password: Seq<char>) -> Seq<char> {
    base64_of(sha256_of(encode_utf8(password) + encode_utf8(salt)))
}

/// The authentication token sent in `Identify`: `base64(SHA256(secret ++ challenge))`, where the
/// secret enters as the bytes of its base64 text.
pub open spec fn auth_response(challenge: Seq<char>, salt: Seq<char>, password: Seq<char>) -> Seq<
    char,
> {
    base64_of(sha256_of(encode_utf8(auth_secret(salt, password)) + encode_utf8(challenge)))
}

/// Relies on sha2's `Digest::digest` for `Sha256`: the 32-byte SHA-256 digest of `data`.
#[verifier::external_body]
fn sha256(data: &[u8]) -> (r: Vec<u8>)
    ensures
        r@ == sha256_of(data@),
        r@.len() == 32,
{
    <sha2::Sha256 as sha2::Digest>::digest(data).to_vec()
}

/// Relies on base64's `encode_config_buf` with the `STANDARD` configuration: appends the padded
/// base64 encoding of `data` to `buf`.
#[verifier::external_body]
fn base64_encode_into(data: &[u8], buf: &mut String)
    ensures
        final(buf)@ == old(buf)@ + base64_of(data@),
{
    base64::encode_config_buf(data, base64::STANDARD, buf)
}

/// Appends the bytes of `bytes` to `buf`.
fn append_bytes(buf: &mut Vec<u8>, bytes: &[u8])
    ensures
        final(buf)@ == old(buf)@ + bytes@,
{
    let mut i: usize = 0;
    while i < bytes.len()
        invariant
            i <= bytes@.len(),
            buf@ == old(buf)@ + bytes@.subrange(0, i as int),
        decreases bytes@.len() - i,
    {
        buf.push(bytes[i]);
        i = i + 1;
        assert(bytes@.subrange(0, i as int) =~= bytes@.subrange(0, i - 1) + seq![bytes@[i - 1]]);
    }
    assert(bytes@.subrange(0, i as int) =~= bytes@);
}

/// Computes the authentication token from the server's challenge and salt and the user's
/// password.
pub fn create_auth_response(challenge: &str, salt: &str, password: &str) -> (r: String)
    ensures
        r@ == auth_response(challenge@, salt@, password@),
{
    let mut data: Vec<u8> = Vec::new();
    append_bytes(&mut data, password.as_bytes());
    append_bytes(&mut data, salt.as_bytes());
    let digest = sha256(data.as_slice());

    let mut secret = String::new();
    base64_encode_into(digest.as_slice(), &mut secret);
    assert(data@ =~= encode_utf8(password@) + encode_utf8(salt@));
    assert(secret@ =~= auth_secret(salt@, password@));

    data.clear();
    append_bytes(&mut data, secret.as_str().as_bytes());
    append_bytes(&mut data, challenge.as_bytes());
    let digest = sha256(data.as_slice());

    let mut auth = String::new();
    base64_encode_into(digest.as_slice(), &mut auth);
    assert(data@ =~= encode_utf8(secret@) + encode_utf8(challenge@));
    assert(auth@ =~= auth_response(challenge@, salt@, password@));
    auth
}

/// The token is a function of its three inputs: two computations from equal challenge, salt and
/// password give equal tokens.
pub proof fn lemma_auth_response_deterministic(
    challenge: Seq<char>,
    salt: Seq<char>,
    password: Seq<char>,
    first: Seq<char>,
    second: Seq<char>,
)
    requires
        first == auth_response(challenge, salt, password),
        second == auth_response(challenge, salt, password),
    ensures
        first == second,
{
}

} // verus!
