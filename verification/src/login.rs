use vstd::prelude::*;
use vstd::string::*;

use byteorder::{LittleEndian, WriteBytesExt};

use crate::error::FritzError;
use crate::text::{chars_of, clone_text, string_from_chars};
use crate::urls::{
    address_with_query, field_ok, login_address, login_page, pair, pairs_len, url_outcome,
    url_with_params, MAX_FIELD,
};

verus! {

/// The box's answer to a login request, as its XML names them `SID` and `Challenge`.
pub struct SessionInfo {
    pub sid: String,
    pub challenge: String,
}

/// The UTF-16 code units of one character.
pub open spec fn utf16_units(c: char) -> Seq<u16> {
    let v = c as u32;
    if v < 0x10000 {
        seq![v as u16]
    } else {
        seq![(0xD800 + (v - 0x10000) / 0x400) as u16, (0xDC00 + (v - 0x10000) % 0x400) as u16]
    }
}

/// The UTF-16 encoding of `s`, as `str::encode_utf16` yields it.
pub open spec fn utf16_encode(s: Seq<char>) -> Seq<u16>
    decreases s.len(),
{
    if s.len() == 0 {
        seq![]
    } else {
        utf16_encode(s.drop_last()) + utf16_units(s.last())
    }
}

/// Encodes `s` in UTF-16.
pub fn encode_utf16(s: &Vec<char>) -> (r: Vec<u16>)
    ensures
        r@ == utf16_encode(s@),
{
    let mut r: Vec<u16> = Vec::new();
    let n = s.len();
    for i in 0..n
        invariant
            n == s@.len(),
            r@ == utf16_encode(s@.take(i as int)),
    {
        proof {
            assert(s@.take(i + 1).drop_last() =~= s@.take(i as int));
        }
        let v = s[i] as u32;
        if v < 0x10000 {
            r.push(v as u16);
        } else {
            let w = v - 0x10000;
            r.push((0xD800 + w / 0x400) as u16);
            r.push((0xDC00 + w % 0x400) as u16);
        }
    }
    proof {
        assert(s@.take(n as int) =~= s@);
    }
    r
}

/// The bytes of the code units `units`, each low byte first.
pub open spec fn le_bytes(units: Seq<u16>) -> Seq<u8>
    decreases units.len(),
{
    if units.len() == 0 {
        seq![]
    } else {
        le_bytes(units.drop_last()) + seq![(units.last() % 256) as u8, (units.last() / 256) as u8]
    }
}

/// `byteorder::WriteBytesExt::write_u16::<LittleEndian>` on a `Vec<u8>`. Claimed: it
/// appends the two bytes of `n`, low byte first; writing into a `Vec` never fails.
#[verifier::external_body]
fn write_u16_le(buf: &mut Vec<u8>, n: u16)
    ensures
        final(buf)@ == old(buf)@ + seq![(n % 256) as u8, (n / 256) as u8],
{
    let _ = buf.write_u16::<LittleEndian>(n);
}

/// The code units `units` as little-endian bytes.
pub fn utf16_le_bytes(units: &Vec<u16>) -> (r: Vec<u8>)
    ensures
        r@ == le_bytes(units@),
{
    let mut r: Vec<u8> = Vec::new();
    let n = units.len();
    for i in 0..n
        invariant
            n == units@.len(),
            r@ == le_bytes(units@.take(i as int)),
    {
        proof {
            assert(units@.take(i + 1).drop_last() =~= units@.take(i as int));
        }
        write_u16_le(&mut r, units[i]);
    }
    proof {
        assert(units@.take(n as int) =~= units@);
    }
    r
}

/// The MD5 digest of `data`, as `md5::compute` gives it.
pub uninterp spec fn md5_digest(data: Seq<u8>) -> Seq<u8>;

/// Calls `md5::compute`. Claimed: its sixteen bytes are a function of `data` alone,
/// named `md5_digest`.
#[verifier::external_body]
fn md5_compute(data: &Vec<u8>) -> (r: [u8; 16])
    ensures
        r@ == md5_digest(data@),
{
    md5::compute(data).0
}

/// The lower-case hexadecimal digit of `n`, for `0 <= n < 16`.
pub open spec fn hex_digit(n: int) -> char {
    if n < 10 {
        (48 + n) as char
    } else {
        (87 + n) as char
    }
}

/// `bytes` in lower-case hexadecimal, two digits a byte, as the `Debug` form of an
/// `md5::Digest` writes them.
pub open spec fn hex_lower(bytes: Seq<u8>) -> Seq<char>
    decreases bytes.len(),
{
    if bytes.len() == 0 {
        seq![]
    } else {
        hex_lower(bytes.drop_last()) + seq![
            hex_digit(bytes.last() as int / 16),
            hex_digit(bytes.last() as int % 16),
        ]
    }
}

fn hex_char(n: u8) -> (c: char)
    requires
        n < 16,
    ensures
        c == hex_digit(n as int),
{
    if n < 10 {
        (48u8 + n) as char
    } else {
        (87u8 + n) as char
    }
}

/// Writes `bytes` in lower-case hexadecimal.
pub fn to_hex_lower(bytes: &[u8]) -> (r: Vec<char>)
    ensures
        r@ == hex_lower(bytes@),
        r@.len() == 2 * bytes@.len(),
{
    let mut r: Vec<char> = Vec::new();
    let n = bytes.len();
    for i in 0..n
        invariant
            n == bytes@.len(),
            r@ == hex_lower(bytes@.take(i as int)),
            r@.len() == 2 * i,
    {
        proof {
            assert(bytes@.take(i + 1).drop_last() =~= bytes@.take(i as int));
        }
        let b = bytes[i];
        r.push(hex_char(b / 16));
        r.push(hex_char(b % 16));
    }
    proof {
        assert(bytes@.take(n as int) =~= bytes@);
    }
    r
}

/// The answer that the box expects to its login challenge: the challenge, `-`, and the
/// MD5 digest, in hexadecimal, of the UTF-16LE encoding of challenge, `-` and password.
pub open spec fn challenge_answer(challenge: Seq<char>, psw: Seq<char>) -> Seq<char> {
    challenge + seq!['-'] + hex_lower(
        md5_digest(le_bytes(utf16_encode(challenge + seq!['-'] + psw))),
    )
}

/// Computes the answer to the login challenge `challenge` for the password `psw`.
pub fn challenge_response(challenge: &str, psw: &str) -> (r: String)
    ensures
        r@ == challenge_answer(challenge@, psw@),
        r@ == challenge@ + seq!['-'] + hex_lower(
            md5_digest(le_bytes(utf16_encode(challenge@ + seq!['-'] + psw@))),
        ),
        r@.len() == challenge@.len() + 33,
{
    let mut text = chars_of(challenge);
    text.push('-');
    let mut pw = chars_of(psw);
    text.append(&mut pw);
    assert(text@ =~= challenge@ + seq!['-'] + psw@);
    let units = encode_utf16(&text);
    let bytes = utf16_le_bytes(&units);
    let digest = md5_compute(&bytes);
    let mut answer = chars_of(challenge);
    answer.push('-');
    let mut hex = to_hex_lower(digest.as_slice());
    answer.append(&mut hex);
    assert(answer@ =~= challenge_answer(challenge@, psw@));
    string_from_chars(&answer)
}

/// The text of an optional string.
pub open spec fn opt_text(o: Option<String>) -> Option<Seq<char>> {
    match o {
        Some(s) => Some(s@),
        None => None,
    }
}

/// The query that answers the login challenge, naming the user where there is one.
pub open spec fn response_query(answer: Seq<char>, user: Option<Seq<char>>) -> Seq<
    (Seq<char>, Seq<char>),
> {
    match user {
        None => seq![("response"@, answer)],
        Some(u) => seq![("response"@, answer), ("username"@, u)],
    }
}

/// The address that answers the login challenge `challenge` of the box at
/// `protocol://host` for `user` with the password `psw`.
pub fn login_response_url(
    protocol: &String,
    host: &Option<String>,
    user: &Option<String>,
    psw: &Option<String>,
    challenge: &str,
) -> (r: Result<String, FritzError>)
    requires
        host is Some,
        psw is Some,
        field_ok(protocol@),
        field_ok(host->0@),
        field_ok(challenge@),
        user matches Some(u) ==> field_ok(u@),
    ensures
        url_outcome(
            r,
            url_with_params(
                login_page(protocol@, host->0@),
                response_query(challenge_answer(challenge@, psw->0@), opt_text(*user)),
            ),
        ),
{
    let base = login_address(protocol, host.as_ref().unwrap());
    let answer = challenge_response(challenge, psw.as_ref().unwrap().as_str());
    let mut pairs: Vec<(String, String)> = Vec::new();
    pairs.push(pair("response", answer.as_str()));
    match user {
        Some(u) => {
            pairs.push(pair("username", u.as_str()));
        },
        None => {},
    }
    proof {
        reveal_strlit("response");
        reveal_strlit("username");
        reveal_strlit("://");
        reveal_strlit("/login_sid.lua");
        reveal_with_fuel(pairs_len, 3);
        assert(pairs.deep_view() =~= response_query(answer@, opt_text(*user)));
    }
    address_with_query(&base, &pairs)
}

/// Where a login stands.
#[derive(PartialEq, Eq, Structural)]
pub enum LoginStage {
    /// Nothing asked yet.
    Start,
    /// The login page was asked for a challenge.
    AwaitingChallenge,
    /// The answer to the challenge was sent.
    AwaitingSid,
    /// The session id is known.
    Done,
}

/// What a login asks of its caller next.
pub enum SidAction {
    /// Fetch this address and hand the box's reply, read as a `SessionInfo`, back.
    Fetch(String),
    /// The login is over; this is the session id.
    Finished(String),
}

/// `a` asks to fetch the address `u`.
pub open spec fn fetches(a: SidAction, u: Seq<char>) -> bool {
    a matches SidAction::Fetch(v) && v@ == u
}

/// `a` ends the login with the session id `s`.
pub open spec fn finishes(a: SidAction, s: Seq<char>) -> bool {
    a matches SidAction::Finished(v) && v@ == s
}

/// The session id with which a login ends when the address of its answer cannot be
/// built.
pub open spec fn fallback_sid() -> Seq<char> {
    "ddd"@
}

/// The stage after the first step: a login that was given a session id is over.
pub open spec fn stage_after_start(sid_given: bool) -> LoginStage {
    if sid_given {
        LoginStage::Done
    } else {
        LoginStage::AwaitingChallenge
    }
}

/// The stage after a reply: the challenge leads to the answer where its address could be
/// built, and to the end otherwise; the reply to the answer ends the login.
pub open spec fn stage_after_reply(stage: LoginStage, address_built: bool) -> LoginStage {
    if stage == LoginStage::AwaitingChallenge && address_built {
        LoginStage::AwaitingSid
    } else {
        LoginStage::Done
    }
}

/// The login to a box, which `fetch_sid` drives: it asks for a challenge, answers it,
/// and ends with the session id of the box's second reply. A session id given from the
/// start ends it at once.
pub struct SidLogin {
    pub protocol: String,
    pub host: Option<String>,
    pub user: Option<String>,
    pub psw: Option<String>,
    pub sid: Option<String>,
    pub stage: LoginStage,
}

impl SidLogin {
    /// The settings of the login are those of `other`.
    pub open spec fn same_settings(&self, other: &SidLogin) -> bool {
        &&& self.protocol == other.protocol
        &&& self.host == other.host
        &&& self.user == other.user
        &&& self.psw == other.psw
        &&& self.sid == other.sid
    }

    /// The first step can be taken: a session id is given, or there is a host to ask.
    pub open spec fn can_start(&self) -> bool {
        &&& self.stage == LoginStage::Start
        &&& (self.sid is Some || (self.host is Some && field_ok(self.protocol@) && field_ok(
            self.host->0@,
        )))
    }

    /// `reply` can be taken: the login awaits the session id, or it awaits the challenge
    /// and has what answering it needs.
    pub open spec fn can_take(&self, reply: &SessionInfo) -> bool {
        ||| self.stage == LoginStage::AwaitingSid
        ||| {
            &&& self.stage == LoginStage::AwaitingChallenge
            &&& self.host is Some
            &&& self.psw is Some
            &&& field_ok(self.protocol@)
            &&& field_ok(self.host->0@)
            &&& field_ok(reply.challenge@)
            &&& (self.user matches Some(u) ==> field_ok(u@))
        }
    }

    /// The address that answers the challenge of `reply`, as the URL parser builds it.
    pub open spec fn answer_address(&self, reply: &SessionInfo) -> Result<Seq<char>, url::ParseError> {
        url_with_params(
            login_page(self.protocol@, self.host->0@),
            response_query(challenge_answer(reply.challenge@, self.psw->0@), opt_text(self.user)),
        )
    }

    /// A login with these settings that has not asked anything yet.
    pub fn new(
        protocol: &String,
        host: &Option<String>,
        user: &Option<String>,
        psw: &Option<String>,
        sid: &Option<String>,
    ) -> (r: SidLogin)
        ensures
            r.protocol == *protocol,
            r.host == *host,
            r.user == *user,
            r.psw == *psw,
            r.sid == *sid,
            r.stage == LoginStage::Start,
    {
        SidLogin {
            protocol: protocol.clone(),
            host: clone_text(host),
            user: clone_text(user),
            psw: clone_text(psw),
            sid: clone_text(sid),
            stage: LoginStage::Start,
        }
    }

    /// The first step: a given session id ends the login without a request; otherwise
    /// the login page is fetched for a challenge.
    pub fn start(&mut self) -> (r: SidAction)
        requires
            old(self).can_start(),
        ensures
            final(self).same_settings(old(self)),
            final(self).stage == stage_after_start(old(self).sid is Some),
            match old(self).sid {
                Some(s) => finishes(r, s@),
                None => fetches(r, login_page(old(self).protocol@, old(self).host->0@)),
            },
    {
        match &self.sid {
            Some(s) => {
                self.stage = LoginStage::Done;
                SidAction::Finished(s.clone())
            },
            None => {
                self.stage = LoginStage::AwaitingChallenge;
                SidAction::Fetch(login_address(&self.protocol, self.host.as_ref().unwrap()))
            },
        }
    }

    /// Takes the box's reply to the last fetch. The challenge is answered (where the
    /// address of the answer cannot be built, the login ends with `fallback_sid`); the
    /// reply to the answer ends the login with its session id.
    pub fn on_reply(&mut self, reply: &SessionInfo) -> (r: SidAction)
        requires
            old(self).can_take(reply),
        ensures
            final(self).same_settings(old(self)),
            final(self).stage == stage_after_reply(
                old(self).stage,
                old(self).answer_address(reply) is Ok,
            ),
            old(self).stage == LoginStage::AwaitingSid ==> finishes(r, reply.sid@),
            old(self).stage == LoginStage::AwaitingChallenge ==> match old(self).answer_address(
                reply,
            ) {
                Ok(u) => fetches(r, u),
                Err(_) => finishes(r, fallback_sid()),
            },
    {
        if self.stage == LoginStage::AwaitingSid {
            self.stage = LoginStage::Done;
            return SidAction::Finished(reply.sid.clone());
        }
        let url = login_response_url(
            &self.protocol,
            &self.host,
            &self.user,
            &self.psw,
            reply.challenge.as_str(),
        );
        match url {
            Ok(u) => {
                self.stage = LoginStage::AwaitingSid;
                SidAction::Fetch(u)
            },
            Err(_) => {
                self.stage = LoginStage::Done;
                proof {
                    reveal_strlit("ddd");
                }
                SidAction::Finished(String::from_str("ddd"))
            },
        }
    }
}

/// A login is over after its first step and at most two replies: the one that
/// carries the challenge and the one that carries the session id.
pub proof fn login_ends_within_two_replies(sid_given: bool, first_built: bool, second_built: bool)
    ensures
        ({
            let s0 = stage_after_start(sid_given);
            let s1 = stage_after_reply(s0, first_built);
            ||| s0 == LoginStage::Done
            ||| s1 == LoginStage::Done
            ||| stage_after_reply(s1, second_built) == LoginStage::Done
        }),
{
}

/// The answer to a challenge is the challenge, `-`, and the hexadecimal MD5 digest of the
/// UTF-16LE encoding of the challenge, `-` and the whole password.
pub proof fn answer_hashes_the_whole_password(challenge: Seq<char>, psw: Seq<char>)
    ensures
        challenge_answer(challenge, psw).take(challenge.len() + 1int) == challenge.push('-'),
        challenge_answer(challenge, psw).skip(challenge.len() + 1int) == hex_lower(
            md5_digest(le_bytes(utf16_encode(challenge + seq!['-'] + psw))),
        ),
        le_bytes(utf16_encode(challenge + seq!['-'] + psw)) == le_bytes(utf16_encode(challenge))
            + seq![0x2du8, 0u8] + le_bytes(utf16_encode(psw)),
{
    let a = challenge_answer(challenge, psw);
    assert(a.take(challenge.len() + 1int) =~= challenge.push('-'));
    assert(a.skip(challenge.len() + 1int) =~= hex_lower(
        md5_digest(le_bytes(utf16_encode(challenge + seq!['-'] + psw))),
    ));
    utf16_encode_distributes(challenge + seq!['-'], psw);
    utf16_encode_distributes(challenge, seq!['-']);
    reveal_with_fuel(utf16_encode, 2);
    assert(seq!['-'].drop_last() =~= Seq::<char>::empty());
    assert(utf16_encode(seq!['-']) =~= seq![0x2du16]);
    le_bytes_distributes(utf16_encode(challenge) + seq![0x2du16], utf16_encode(psw));
    le_bytes_distributes(utf16_encode(challenge), seq![0x2du16]);
    reveal_with_fuel(le_bytes, 2);
    assert(seq![0x2du16].drop_last() =~= Seq::<u16>::empty());
    assert(le_bytes(seq![0x2du16]) =~= seq![0x2du8, 0u8]);
}

/// Encoding in UTF-16 goes character by character: the encoding of a concatenation is the
/// concatenation of the encodings.
pub proof fn utf16_encode_distributes(a: Seq<char>, b: Seq<char>)
    ensures
        utf16_encode(a + b) == utf16_encode(a) + utf16_encode(b),
    decreases b.len(),
{
    if b.len() == 0 {
        assert(a + b =~= a);
        assert(utf16_encode(a) + utf16_encode(b) =~= utf16_encode(a));
    } else {
        assert((a + b).drop_last() =~= a + b.drop_last());
        assert((a + b).last() == b.last());
        utf16_encode_distributes(a, b.drop_last());
        assert(utf16_encode(a + b) =~= utf16_encode(a) + utf16_encode(b));
    }
}

/// A text of characters below U+10000 is encoded one code unit a character, each the
/// character's own number.
pub proof fn utf16_encode_basic_plane(s: Seq<char>)
    requires
        forall|i: int| 0 <= i < s.len() ==> ((#[trigger] s[i]) as u32) < 0x10000,
    ensures
        utf16_encode(s).len() == s.len(),
        forall|i: int| 0 <= i < s.len() ==> utf16_encode(s)[i] == (#[trigger] s[i]) as u32 as u16,
    decreases s.len(),
{
    if s.len() > 0 {
        let p = s.drop_last();
        assert forall|i: int| 0 <= i < p.len() implies ((#[trigger] p[i]) as u32) < 0x10000 by {
            assert(p[i] == s[i]);
        }
        utf16_encode_basic_plane(p);
        assert((s[s.len() - 1] as u32) < 0x10000);
        assert forall|i: int| 0 <= i < s.len() implies utf16_encode(s)[i] == (#[trigger] s[i]) as u32 as u16 by {
            if i < p.len() {
                assert(p[i] == s[i]);
            }
        }
    }
}

/// Writing code units as bytes goes unit by unit.
pub proof fn le_bytes_distributes(a: Seq<u16>, b: Seq<u16>)
    ensures
        le_bytes(a + b) == le_bytes(a) + le_bytes(b),
    decreases b.len(),
{
    if b.len() == 0 {
        assert(a + b =~= a);
        assert(le_bytes(a) + le_bytes(b) =~= le_bytes(a));
    } else {
        assert((a + b).drop_last() =~= a + b.drop_last());
        assert((a + b).last() == b.last());
        le_bytes_distributes(a, b.drop_last());
        assert(le_bytes(a + b) =~= le_bytes(a) + le_bytes(b));
    }
}

/// Each code unit becomes two bytes, its low byte first.
pub proof fn le_bytes_two_a_unit(units: Seq<u16>)
    ensures
        le_bytes(units).len() == 2 * units.len(),
        forall|i: int| 0 <= i < units.len() ==> {
            &&& le_bytes(units)[2 * i] == (#[trigger] units[i] % 256) as u8
            &&& le_bytes(units)[2 * i + 1] == (units[i] / 256) as u8
        },
    decreases units.len(),
{
    if units.len() > 0 {
        let p = units.drop_last();
        le_bytes_two_a_unit(p);
        assert forall|i: int| 0 <= i < units.len() implies {
            &&& le_bytes(units)[2 * i] == (#[trigger] units[i] % 256) as u8
            &&& le_bytes(units)[2 * i + 1] == (units[i] / 256) as u8
        } by {
            if i < p.len() {
                assert(p[i] == units[i]);
            }
        }
    }
}

/// Each byte becomes two lower-case hexadecimal digits, the high half first.
pub proof fn hex_two_digits_a_byte(bytes: Seq<u8>)
    ensures
        hex_lower(bytes).len() == 2 * bytes.len(),
        forall|i: int| 0 <= i < bytes.len() ==> {
            &&& hex_lower(bytes)[2 * i] == hex_digit((#[trigger] bytes[i]) as int / 16)
            &&& hex_lower(bytes)[2 * i + 1] == hex_digit(bytes[i] as int % 16)
        },
    decreases bytes.len(),
{
    if bytes.len() > 0 {
        let p = bytes.drop_last();
        hex_two_digits_a_byte(p);
        assert forall|i: int| 0 <= i < bytes.len() implies {
            &&& hex_lower(bytes)[2 * i] == hex_digit((#[trigger] bytes[i]) as int / 16)
            &&& hex_lower(bytes)[2 * i + 1] == hex_digit(bytes[i] as int % 16)
        } by {
            if i < p.len() {
                assert(p[i] == bytes[i]);
            }
        }
    }
}

/// The digits are `0` to `9`, then `a` to `f`.
pub proof fn hex_digits_are_lower_case(n: int)
    requires
        0 <= n < 16,
    ensures
        n < 10 ==> hex_digit(n) as u32 == 48 + n,
        n >= 10 ==> hex_digit(n) as u32 == 97 + (n - 10),
{
}

/// The answer query carries the answer under `response`, then the user, where there is
/// one, under `username`, and nothing else.
pub proof fn response_query_carries_answer_and_user(answer: Seq<char>, user: Option<Seq<char>>)
    ensures
        response_query(answer, user)[0] == ("response"@, answer),
        user is None ==> response_query(answer, user).len() == 1,
        user matches Some(u) ==> response_query(answer, user).len() == 2
            && response_query(answer, user)[1] == ("username"@, u),
{
}

} // verus!
