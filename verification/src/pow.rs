//! ChatGPT's sentinel proof of work: find the least nonce whose SHA3-512
//! digest, in lower-case hex, starts with the difficulty prefix.

use sha3::Digest;
use vstd::prelude::*;

use crate::client::{is_success, is_success_status};
use crate::json::{Json, JsonV};
use crate::schema::{
    field, get_field, opt_json_view, opt_str, opt_string_view, opt_value, read_opt_str,
    read_opt_value, read_req_bool, read_req_str, req_bool, req_str,
};
use crate::text::{chars_of, decimal, has_prefix_at, is_prefix, push_decimal, push_str, string_from_chars, string_push};
use vstd::utf8::encode_utf8;

verus! {

/// The number of nonces tried before giving up.
pub const POW_MAX_ATTEMPTS: u64 = 500000;

/// The requirements that the sentinel endpoint answers with.
#[derive(Debug)]
pub struct ChatRequirements {
    pub persona: Option<String>,
    pub arkose: Option<Json>,
    pub turnstile: Option<Json>,
    pub proofofwork: Option<ProofOfWorkConfig>,
    pub token: Option<String>,
}

/// The proof-of-work challenge.
#[derive(Debug)]
pub struct ProofOfWorkConfig {
    pub required: bool,
    pub seed: String,
    pub difficulty: Option<String>,
}

/// The proof-of-work solver.
pub struct PowSolver;

/// The SHA3-512 digest of some bytes (`sha3::Sha3_512::digest`).
pub uninterp spec fn sha3_512(data: Seq<u8>) -> Seq<u8>;

/// Hashes `data` with `sha3::Sha3_512::digest`. Claimed: the result is
/// `sha3_512` of the data.
#[verifier::external_body]
fn sha3_512_digest(data: &[u8]) -> (d: [u8; 64])
    ensures
        d@ == sha3_512(data@),
{
    let out = sha3::Sha3_512::digest(data);
    let mut d = [0u8; 64];
    d.copy_from_slice(&out);
    d
}

/// The lower-case hex digit for `n < 16`.
pub open spec fn hex_digit(n: u8) -> char {
    if n < 10 {
        (('0' as u8) + n) as char
    } else {
        (('a' as u8) + n - 10) as char
    }
}

/// Lower-case hex, two digits per byte, high nibble first.
pub open spec fn hex_lower(data: Seq<u8>) -> Seq<char>
    decreases data.len(),
{
    if data.len() == 0 {
        Seq::empty()
    } else {
        hex_lower(data.drop_last()) + seq![
            hex_digit(data.last() >> 4u8),
            hex_digit(data.last() & 0x0fu8),
        ]
    }
}

/// Encodes bytes with `hex::encode`. Claimed: lower-case hex, two digits
/// per byte, high nibble first, as the crate's table-driven encoder writes it.
#[verifier::external_body]
fn hex_encode(data: &[u8]) -> (s: String)
    ensures
        s@ == hex_lower(data@),
{
    hex::encode(data)
}

pub proof fn lemma_hex_len(data: Seq<u8>)
    ensures
        hex_lower(data).len() == 2 * data.len(),
    decreases data.len(),
{
    if data.len() > 0 {
        lemma_hex_len(data.drop_last());
    }
}

/// The text hashed for a nonce: `seed:nonce:user_agent`.
pub open spec fn pow_candidate(seed: Seq<char>, nonce: nat, user_agent: Seq<char>) -> Seq<char> {
    seed + seq![':'] + decimal(nonce) + seq![':'] + user_agent
}

/// The hex digest for a nonce.
pub open spec fn pow_hex(seed: Seq<char>, nonce: nat, user_agent: Seq<char>) -> Seq<char> {
    hex_lower(sha3_512(encode_utf8(pow_candidate(seed, nonce, user_agent))))
}

/// Whether a nonce solves the challenge.
pub open spec fn pow_accepts(
    seed: Seq<char>,
    difficulty: Seq<char>,
    user_agent: Seq<char>,
    nonce: nat,
) -> bool {
    difficulty.len() == 0 || is_prefix(difficulty, pow_hex(seed, nonce, user_agent))
}

/// The proof token for a solving nonce: `gAAAAAB_seed_nonce_` and the
/// first `min(|difficulty|, 16)` digits of the digest.
pub open spec fn pow_token(
    seed: Seq<char>,
    difficulty: Seq<char>,
    user_agent: Seq<char>,
    nonce: nat,
) -> Seq<char> {
    let k = if difficulty.len() < 16 {
        difficulty.len()
    } else {
        16
    };
    "gAAAAAB_"@ + seed + seq!['_'] + decimal(nonce) + seq!['_'] + pow_hex(
        seed,
        nonce,
        user_agent,
    ).take(k as int)
}

/// Whether `r` is what the solver returns for a challenge: the token of the
/// least solving nonce below `POW_MAX_ATTEMPTS`, or `None` when no nonce
/// there solves it.
pub open spec fn solves(
    r: Option<String>,
    seed: Seq<char>,
    difficulty: Seq<char>,
    user_agent: Seq<char>,
) -> bool {
    match r {
        Some(t) => exists|n: nat|
            #![trigger pow_token(seed, difficulty, user_agent, n)]
            n < POW_MAX_ATTEMPTS && pow_accepts(seed, difficulty, user_agent, n) && (forall|m: nat|
                m < n ==> !pow_accepts(seed, difficulty, user_agent, m)) && t@ == pow_token(
                seed,
                difficulty,
                user_agent,
                n,
            ),
        None => forall|m: nat| m < POW_MAX_ATTEMPTS ==> !pow_accepts(seed, difficulty, user_agent, m),
    }
}

/// The lower-case hex SHA3-512 digest of the UTF-8 bytes of a text.
pub open spec fn hex_digest(text: Seq<char>) -> Seq<char> {
    hex_lower(sha3_512(encode_utf8(text)))
}

/// What the solver's answer means, in terms of the digests themselves: a
/// token is `gAAAAAB_seed_n_` followed by the first `min(|difficulty|, 16)`
/// characters of the difficulty, for a nonce `n` below 500000 whose
/// digest of `seed:n:user_agent` starts with the whole difficulty, no
/// smaller nonce having such a digest; no token means a non-empty
/// difficulty that no digest below 500000 starts with.
pub proof fn lemma_solution_meets_difficulty(
    r: Option<String>,
    seed: Seq<char>,
    difficulty: Seq<char>,
    user_agent: Seq<char>,
)
    requires
        solves(r, seed, difficulty, user_agent),
    ensures
        r matches Some(t) ==> exists|n: nat|
            #![trigger decimal(n)]
            {
                &&& n < 500000
                &&& is_prefix(
                    difficulty,
                    hex_digest(seed + seq![':'] + decimal(n) + seq![':'] + user_agent),
                )
                &&& forall|m: nat|
                    m < n ==> difficulty.len() > 0 && !is_prefix(
                        difficulty,
                        hex_digest(seed + seq![':'] + #[trigger] decimal(m) + seq![':'] + user_agent),
                    )
                &&& t@ == "gAAAAAB_"@ + seed + seq!['_'] + decimal(n) + seq!['_'] + difficulty.take(
                    if difficulty.len() < 16 {
                        difficulty.len() as int
                    } else {
                        16
                    },
                )
            },
        r is None ==> difficulty.len() > 0 && forall|m: nat|
            m < 500000 ==> !is_prefix(
                difficulty,
                hex_digest(seed + seq![':'] + #[trigger] decimal(m) + seq![':'] + user_agent),
            ),
{
    match r {
        Some(t) => {
            let n = choose|n: nat|
                #![trigger pow_token(seed, difficulty, user_agent, n)]
                n < POW_MAX_ATTEMPTS && pow_accepts(seed, difficulty, user_agent, n) && (forall|
                    m: nat,
                | m < n ==> !pow_accepts(seed, difficulty, user_agent, m)) && t@ == pow_token(
                    seed,
                    difficulty,
                    user_agent,
                    n,
                );
            let h = pow_hex(seed, n, user_agent);
            assert(h == hex_digest(seed + seq![':'] + decimal(n) + seq![':'] + user_agent));
            let k: int = if difficulty.len() < 16 {
                difficulty.len() as int
            } else {
                16
            };
            assert(is_prefix(difficulty, h)) by {
                if difficulty.len() == 0 {
                    assert(h.subrange(0, 0) =~= difficulty);
                }
            }
            assert(h.take(k) =~= difficulty.take(k));
            assert forall|m: nat| m < n implies difficulty.len() > 0 && !is_prefix(
                difficulty,
                hex_digest(seed + seq![':'] + #[trigger] decimal(m) + seq![':'] + user_agent),
            ) by {
                assert(!pow_accepts(seed, difficulty, user_agent, m));
            }
        },
        None => {
            assert(!pow_accepts(seed, difficulty, user_agent, 0));
            assert forall|m: nat| m < 500000 implies !is_prefix(
                difficulty,
                hex_digest(seed + seq![':'] + #[trigger] decimal(m) + seq![':'] + user_agent),
            ) by {
                assert(!pow_accepts(seed, difficulty, user_agent, m));
            }
        },
    }
}

impl PowSolver {
    /// Tries the nonces from 0 up, below `POW_MAX_ATTEMPTS`, and returns the
    /// token of the first that solves the challenge.
    pub fn solve(seed: &str, difficulty: &str, user_agent: &str) -> (r: Option<String>)
        ensures
            solves(r, seed@, difficulty@, user_agent@),
    {
        let diff = chars_of(difficulty);
        let mut nonce: u64 = 0;
        while nonce < POW_MAX_ATTEMPTS
            invariant
                nonce <= POW_MAX_ATTEMPTS,
                diff@ == difficulty@,
                forall|m: nat| m < nonce ==> !pow_accepts(seed@, difficulty@, user_agent@, m),
            decreases POW_MAX_ATTEMPTS - nonce,
        {
            let mut candidate = String::new();
            push_str(&mut candidate, seed);
            string_push(&mut candidate, ':');
            push_decimal(&mut candidate, nonce);
            string_push(&mut candidate, ':');
            push_str(&mut candidate, user_agent);
            assert(candidate@ =~= pow_candidate(seed@, nonce as nat, user_agent@));
            let digest = sha3_512_digest(candidate.as_str().as_bytes());
            let hex = hex_encode(&digest);
            let hex_cs = chars_of(hex.as_str());
            proof {
                lemma_hex_len(digest@);
                assert(hex_cs@.subrange(0, hex_cs@.len() as int) =~= hex_cs@);
            }
            if diff.len() == 0 || has_prefix_at(&hex_cs, 0, hex_cs.len(), &diff) {
                let k: usize = if diff.len() < 16 {
                    diff.len()
                } else {
                    16
                };
                let mut token = String::new();
                push_str(&mut token, "gAAAAAB_");
                push_str(&mut token, seed);
                string_push(&mut token, '_');
                push_decimal(&mut token, nonce);
                string_push(&mut token, '_');
                let head = string_from_chars(&hex_cs, 0, k);
                push_str(&mut token, head.as_str());
                assert(token@ =~= pow_token(seed@, difficulty@, user_agent@, nonce as nat));
                return Some(token);
            }
            nonce = nonce + 1;
        }
        None
    }
}


pub struct PowConfigV {
    pub required: bool,
    pub seed: Seq<char>,
    pub difficulty: Option<Seq<char>>,
}

pub struct RequirementsV {
    pub persona: Option<Seq<char>>,
    pub arkose: Option<JsonV>,
    pub turnstile: Option<JsonV>,
    pub proofofwork: Option<PowConfigV>,
    pub token: Option<Seq<char>>,
}

impl View for ProofOfWorkConfig {
    type V = PowConfigV;

    open spec fn view(&self) -> PowConfigV {
        PowConfigV {
            required: self.required,
            seed: self.seed@,
            difficulty: opt_string_view(self.difficulty),
        }
    }
}

impl View for ChatRequirements {
    type V = RequirementsV;

    open spec fn view(&self) -> RequirementsV {
        RequirementsV {
            persona: opt_string_view(self.persona),
            arkose: opt_json_view(self.arkose),
            turnstile: opt_json_view(self.turnstile),
            proofofwork: match self.proofofwork {
                Some(p) => Some(p@),
                None => None,
            },
            token: opt_string_view(self.token),
        }
    }
}

/// The challenge a JSON document decodes to, if it decodes.
pub open spec fn decode_pow_config(v: JsonV) -> Option<PowConfigV> {
    match (field(v, "required"@, 0, 3), field(v, "seed"@, 1, 3), field(v, "difficulty"@, 2, 3)) {
        (Some(f0), Some(f1), Some(f2)) => match (req_bool(f0), req_str(f1), opt_str(f2)) {
            (Some(required), Some(seed), Some(difficulty)) => Some(
                PowConfigV { required, seed, difficulty },
            ),
            _ => None,
        },
        _ => None,
    }
}

pub open spec fn opt_pow_config(f: Option<JsonV>) -> Option<Option<PowConfigV>> {
    match f {
        None => Some(None),
        Some(JsonV::Null) => Some(None),
        Some(x) => match decode_pow_config(x) {
            Some(p) => Some(Some(p)),
            None => None,
        },
    }
}

/// The requirements a JSON document decodes to, if it decodes.
pub open spec fn decode_requirements(v: JsonV) -> Option<RequirementsV> {
    let f0 = field(v, "persona"@, 0, 5);
    let f1 = field(v, "arkose"@, 1, 5);
    let f2 = field(v, "turnstile"@, 2, 5);
    let f3 = field(v, "proofofwork"@, 3, 5);
    let f4 = field(v, "token"@, 4, 5);
    if f0 is None || f1 is None || f2 is None || f3 is None || f4 is None {
        None
    } else {
        let persona = opt_str(f0.unwrap());
        let arkose = opt_value(f1.unwrap());
        let turnstile = opt_value(f2.unwrap());
        let proofofwork = opt_pow_config(f3.unwrap());
        let token = opt_str(f4.unwrap());
        if persona is None || proofofwork is None || token is None {
            None
        } else {
            Some(
                RequirementsV {
                    persona: persona.unwrap(),
                    arkose: arkose.unwrap(),
                    turnstile: turnstile.unwrap(),
                    proofofwork: proofofwork.unwrap(),
                    token: token.unwrap(),
                },
            )
        }
    }
}

impl ProofOfWorkConfig {
    /// Decodes a challenge.
    pub fn from_json(j: &Json) -> (r: Option<ProofOfWorkConfig>)
        ensures
            match r {
                Some(p) => decode_pow_config(j@) == Some(p@),
                None => decode_pow_config(j@) is None,
            },
    {
        let f0 = match get_field(j, "required", 0, 3) {
            Ok(f) => f,
            Err(_) => return None,
        };
        let f1 = match get_field(j, "seed", 1, 3) {
            Ok(f) => f,
            Err(_) => return None,
        };
        let f2 = match get_field(j, "difficulty", 2, 3) {
            Ok(f) => f,
            Err(_) => return None,
        };
        let required = match read_req_bool(f0) {
            Some(b) => b,
            None => return None,
        };
        let seed = match read_req_str(f1) {
            Some(s) => s,
            None => return None,
        };
        let difficulty = match read_opt_str(f2) {
            Ok(d) => d,
            Err(_) => return None,
        };
        Some(ProofOfWorkConfig { required, seed, difficulty })
    }
}

impl ChatRequirements {
    /// Decodes the sentinel endpoint's answer.
    pub fn from_json(j: &Json) -> (r: Option<ChatRequirements>)
        ensures
            match r {
                Some(c) => decode_requirements(j@) == Some(c@),
                None => decode_requirements(j@) is None,
            },
    {
        let f0 = match get_field(j, "persona", 0, 5) {
            Ok(f) => f,
            Err(_) => return None,
        };
        let f1 = match get_field(j, "arkose", 1, 5) {
            Ok(f) => f,
            Err(_) => return None,
        };
        let f2 = match get_field(j, "turnstile", 2, 5) {
            Ok(f) => f,
            Err(_) => return None,
        };
        let f3 = match get_field(j, "proofofwork", 3, 5) {
            Ok(f) => f,
            Err(_) => return None,
        };
        let f4 = match get_field(j, "token", 4, 5) {
            Ok(f) => f,
            Err(_) => return None,
        };
        let persona = match read_opt_str(f0) {
            Ok(x) => x,
            Err(_) => return None,
        };
        let arkose = read_opt_value(f1);
        let turnstile = read_opt_value(f2);
        let proofofwork = match f3 {
            None => None,
            Some(Json::Null) => None,
            Some(x) => match ProofOfWorkConfig::from_json(x) {
                Some(p) => Some(p),
                None => return None,
            },
        };
        let token = match read_opt_str(f4) {
            Ok(x) => x,
            Err(_) => return None,
        };
        Some(ChatRequirements { persona, arkose, turnstile, proofofwork, token })
    }
}

/// The sentinel tokens to send with a conversation request: the
/// requirements token as given, and a proof token when the challenge is
/// required, solved with difficulty `"0"` when none is given.
pub fn requirement_tokens(reqs: &ChatRequirements, user_agent: &str) -> (r: (
    Option<String>,
    Option<String>,
))
    ensures
        opt_string_view(r.0) == opt_string_view(reqs.token),
        match reqs.proofofwork {
            Some(p) => if p.required {
                solves(
                    r.1,
                    p.seed@,
                    match p.difficulty {
                        Some(d) => d@,
                        None => "0"@,
                    },
                    user_agent@,
                )
            } else {
                r.1 is None
            },
            None => r.1 is None,
        },
{
    let token = match &reqs.token {
        Some(t) => Some(t.clone()),
        None => None,
    };
    let proof_token = match &reqs.proofofwork {
        Some(p) => if p.required {
            let diff: &str = match &p.difficulty {
                Some(d) => d.as_str(),
                None => "0",
            };
            PowSolver::solve(p.seed.as_str(), diff, user_agent)
        } else {
            None
        },
        None => None,
    };
    (token, proof_token)
}

/// The error for a requirements request that could not be made.
pub fn requirements_request_failed(detail: &str) -> (m: String)
    ensures
        m@ == "Failed to fetch chat requirements: "@ + detail@,
{
    let mut m = "Failed to fetch chat requirements: ".to_owned();
    push_str(&mut m, detail);
    m
}

/// The error for a requirements request answered with a failure status, if
/// it was.
pub fn requirements_status_error(status: u16, status_text: &str) -> (r: Option<String>)
    ensures
        is_success_status(status) ==> r is None,
        !is_success_status(status) ==> (r matches Some(m) && m@
            == "Requirements endpoint returned status "@ + status_text@),
{
    if is_success(status) {
        None
    } else {
        let mut m = "Requirements endpoint returned status ".to_owned();
        push_str(&mut m, status_text);
        Some(m)
    }
}

/// The error for a requirements answer that does not decode.
pub fn requirements_bad_json(detail: &str) -> (m: String)
    ensures
        m@ == "Bad requirements JSON: "@ + detail@,
{
    let mut m = "Bad requirements JSON: ".to_owned();
    push_str(&mut m, detail);
    m
}

} // verus!
