//! Transfers by code: the options of the croc tool, the codes, and what follows from its events.

use vstd::prelude::*;

use crate::binary::{Binary, Scaled};
use crate::seqs;
use crate::text::{
    blank, drop_controls, is_control_char, is_trim, join2, non_blank, opt_text, same_text,
    some_unless_blank, trim_text, trimmed, trimming_is_idempotent, without_controls,
};
use crate::transfer::{Patch, Status};

verus! {

/// The hash algorithms that croc offers.
#[derive(Clone, Copy, Debug, PartialEq, Eq, Structural)]
pub enum HashAlgorithm {
    Xxhash,
    Imohash,
    Md5,
}

/// The elliptic curves that croc offers.
#[derive(Clone, Copy, Debug, PartialEq, Eq, Structural)]
pub enum Curve {
    Siec,
    P256,
    P384,
    P521,
}

/// The name of a hash algorithm.
pub open spec fn hash_name(hash: HashAlgorithm) -> Seq<char> {
    match hash {
        HashAlgorithm::Xxhash => "xxhash"@,
        HashAlgorithm::Imohash => "imohash"@,
        HashAlgorithm::Md5 => "md5"@,
    }
}

/// The name of a curve.
pub open spec fn curve_name(curve: Curve) -> Seq<char> {
    match curve {
        Curve::Siec => "siec"@,
        Curve::P256 => "p256"@,
        Curve::P384 => "p384"@,
        Curve::P521 => "p521"@,
    }
}

/// The hash algorithm that a text names, if it names one.
pub open spec fn parsed_hash(s: Seq<char>) -> Option<HashAlgorithm> {
    if s == "xxhash"@ {
        Some(HashAlgorithm::Xxhash)
    } else if s == "imohash"@ {
        Some(HashAlgorithm::Imohash)
    } else if s == "md5"@ {
        Some(HashAlgorithm::Md5)
    } else {
        None
    }
}

/// The curve that a text names, if it names one.
pub open spec fn parsed_curve(s: Seq<char>) -> Option<Curve> {
    if s == "siec"@ {
        Some(Curve::Siec)
    } else if s == "p256"@ {
        Some(Curve::P256)
    } else if s == "p384"@ {
        Some(Curve::P384)
    } else if s == "p521"@ {
        Some(Curve::P521)
    } else {
        None
    }
}

/// The name of a hash algorithm, or nothing where none is chosen.
pub open spec fn hash_text(hash: Option<HashAlgorithm>) -> Seq<char> {
    match hash {
        Some(h) => hash_name(h),
        None => blank(),
    }
}

/// The name of a curve, or nothing where none is chosen.
pub open spec fn curve_text(curve: Option<Curve>) -> Seq<char> {
    match curve {
        Some(c) => curve_name(c),
        None => blank(),
    }
}

/// Reads the name of a hash algorithm.
pub fn parse_hash(s: &str) -> (r: Option<HashAlgorithm>)
    ensures
        r == parsed_hash(s@),
{
    if same_text(s, "xxhash") {
        Some(HashAlgorithm::Xxhash)
    } else if same_text(s, "imohash") {
        Some(HashAlgorithm::Imohash)
    } else if same_text(s, "md5") {
        Some(HashAlgorithm::Md5)
    } else {
        None
    }
}

/// Reads the name of a curve.
pub fn parse_curve(s: &str) -> (r: Option<Curve>)
    ensures
        r == parsed_curve(s@),
{
    if same_text(s, "siec") {
        Some(Curve::Siec)
    } else if same_text(s, "p256") {
        Some(Curve::P256)
    } else if same_text(s, "p384") {
        Some(Curve::P384)
    } else if same_text(s, "p521") {
        Some(Curve::P521)
    } else {
        None
    }
}

/// Writes the name of a hash algorithm.
pub fn show_hash(hash: Option<HashAlgorithm>) -> (r: String)
    ensures
        r@ == hash_text(hash),
{
    match hash {
        Some(HashAlgorithm::Xxhash) => "xxhash".to_owned(),
        Some(HashAlgorithm::Imohash) => "imohash".to_owned(),
        Some(HashAlgorithm::Md5) => "md5".to_owned(),
        None => String::new(),
    }
}

/// Writes the name of a curve.
pub fn show_curve(curve: Option<Curve>) -> (r: String)
    ensures
        r@ == curve_text(curve),
{
    match curve {
        Some(Curve::Siec) => "siec".to_owned(),
        Some(Curve::P256) => "p256".to_owned(),
        Some(Curve::P384) => "p384".to_owned(),
        Some(Curve::P521) => "p521".to_owned(),
        None => String::new(),
    }
}

/// The choice of a hash algorithm and of a curve survives being shown and read again.
pub proof fn choices_survive_display(hash: Option<HashAlgorithm>, curve: Option<Curve>)
    ensures
        parsed_hash(hash_text(hash)) == hash,
        parsed_curve(curve_text(curve)) == curve,
{
    reveal_strlit("xxhash");
    reveal_strlit("imohash");
    reveal_strlit("md5");
    reveal_strlit("siec");
    reveal_strlit("p256");
    reveal_strlit("p384");
    reveal_strlit("p521");
    assert("xxhash"@.len() == 6 && "imohash"@.len() == 7 && "md5"@.len() == 3);
    assert("siec"@[0] == 's' && "p256"@[0] == 'p' && "p384"@[0] == 'p' && "p521"@[0] == 'p');
    assert("p256"@[1] == '2' && "p384"@[1] == '3' && "p521"@[1] == '5');
    assert("siec"@.len() == 4 && "p256"@.len() == 4 && "p384"@.len() == 4 && "p521"@.len() == 4);
}

/// The settings for transfers by code.
#[derive(Debug, PartialEq, Eq)]
pub struct CrocConfig<T = String> {
    pub default_hash: Option<HashAlgorithm>,
    pub default_curve: Option<Curve>,
    pub throttle: Option<T>,
    pub no_local: bool,
    pub default_relay: Option<T>,
}

impl View for CrocConfig<String> {
    type V = CrocConfig<Seq<char>>;

    open spec fn view(&self) -> CrocConfig<Seq<char>> {
        CrocConfig {
            default_hash: self.default_hash,
            default_curve: self.default_curve,
            throttle: opt_text(self.throttle),
            no_local: self.no_local,
            default_relay: opt_text(self.default_relay),
        }
    }
}

/// The options of one run of croc.
#[derive(Debug, PartialEq, Eq)]
pub struct CrocOptions<T = String> {
    pub code: Option<T>,
    pub hash: HashAlgorithm,
    pub curve: Option<Curve>,
    pub throttle: Option<T>,
    pub no_local: bool,
    pub relay: Option<T>,
}

impl View for CrocOptions<String> {
    type V = CrocOptions<Seq<char>>;

    open spec fn view(&self) -> CrocOptions<Seq<char>> {
        CrocOptions {
            code: opt_text(self.code),
            hash: self.hash,
            curve: self.curve,
            throttle: opt_text(self.throttle),
            no_local: self.no_local,
            relay: opt_text(self.relay),
        }
    }
}

/// A setting that counts only where it is not empty.
pub open spec fn effective(setting: Option<Seq<char>>) -> Option<Seq<char>> {
    match setting {
        Some(s) => non_blank(s),
        None => None,
    }
}

/// The hash algorithm that is used where none is chosen.
pub open spec fn hash_or_md5(hash: Option<HashAlgorithm>) -> HashAlgorithm {
    match hash {
        Some(h) => h,
        None => HashAlgorithm::Md5,
    }
}

/// The options for sending files under a code of the user's, or under one of croc's own.
pub open spec fn options_to_send(c: CrocConfig<Seq<char>>, custom_code: Seq<char>) -> CrocOptions<
    Seq<char>,
> {
    CrocOptions {
        code: non_blank(custom_code),
        hash: hash_or_md5(c.default_hash),
        curve: c.default_curve,
        throttle: effective(c.throttle),
        no_local: c.no_local,
        relay: effective(c.default_relay),
    }
}

/// The options for receiving files.
pub open spec fn options_to_receive(c: CrocConfig<Seq<char>>) -> CrocOptions<Seq<char>> {
    CrocOptions { code: None, no_local: false, ..options_to_send(c, blank()) }
}

/// The options for sending a trust bundle: always with the same hash algorithm, and not throttled.
pub open spec fn options_to_trust(c: CrocConfig<Seq<char>>) -> CrocOptions<Seq<char>> {
    CrocOptions {
        code: None,
        hash: HashAlgorithm::Md5,
        curve: c.default_curve,
        throttle: None,
        no_local: false,
        relay: effective(c.default_relay),
    }
}

fn effective_setting(setting: &Option<String>) -> (r: Option<String>)
    ensures
        opt_text(r) == effective(opt_text(*setting)),
{
    match setting {
        Some(s) => some_unless_blank(s.as_str()),
        None => None,
    }
}

/// The options for sending files.
pub fn send_options(c: &CrocConfig, custom_code: &str) -> (r: CrocOptions)
    ensures
        r@ == options_to_send(c@, custom_code@),
{
    let hash = match c.default_hash {
        Some(h) => h,
        None => HashAlgorithm::Md5,
    };
    CrocOptions {
        code: some_unless_blank(custom_code),
        hash,
        curve: c.default_curve,
        throttle: effective_setting(&c.throttle),
        no_local: c.no_local,
        relay: effective_setting(&c.default_relay),
    }
}

/// The options for receiving files.
pub fn receive_options(c: &CrocConfig) -> (r: CrocOptions)
    ensures
        r@ == options_to_receive(c@),
{
    let hash = match c.default_hash {
        Some(h) => h,
        None => HashAlgorithm::Md5,
    };
    CrocOptions {
        code: None,
        hash,
        curve: c.default_curve,
        throttle: effective_setting(&c.throttle),
        no_local: false,
        relay: effective_setting(&c.default_relay),
    }
}

/// The options for sending a trust bundle.
pub fn trust_options(c: &CrocConfig) -> (r: CrocOptions)
    ensures
        r@ == options_to_trust(c@),
{
    CrocOptions {
        code: None,
        hash: HashAlgorithm::Md5,
        curve: c.default_curve,
        throttle: None,
        no_local: false,
        relay: effective_setting(&c.default_relay),
    }
}

/// Both ends of a transfer with the same settings agree on the curve and on the relay, also for a
/// trust bundle, which the other end receives like any file.
pub proof fn both_ends_agree(c: CrocConfig<Seq<char>>, custom_code: Seq<char>)
    ensures
        options_to_send(c, custom_code).curve == options_to_receive(c).curve,
        options_to_send(c, custom_code).relay == options_to_receive(c).relay,
        options_to_trust(c).curve == options_to_receive(c).curve,
        options_to_trust(c).relay == options_to_receive(c).relay,
{
}

// ---------------------------------------------------------------------------
// Codes

/// A code as it is used: without control characters and without white space around it. Nothing is
/// left of a code that holds nothing else.
pub open spec fn clean_code(code: Seq<char>) -> Option<Seq<char>> {
    non_blank(trimmed(without_controls(code)))
}

/// Cleans a code that the user has entered.
pub fn sanitize_code(code: &str) -> (r: Option<String>)
    ensures
        opt_text(r) == clean_code(code@),
{
    let cleaned = trim_text(drop_controls(code).as_str());
    some_unless_blank(cleaned.as_str())
}

/// A code that is clean stays as it is, and holds no control character and no white space at its
/// ends.
pub proof fn cleaning_is_idempotent(code: Seq<char>)
    ensures
        clean_code(code) matches Some(c) ==> clean_code(c) == Some(c) && is_trim(c) && c.len() > 0
            && forall|i: int| 0 <= i < c.len() ==> !is_control_char(#[trigger] c[i]),
{
    let keep = |c: char| !is_control_char(c);
    let w = without_controls(code);
    seqs::lemma_filter_keeps(code, keep);
    trimming_is_idempotent(w);
    let c = trimmed(w);
    let (i, j) = choose|i: int, j: int| 0 <= i <= j <= w.len() && c == #[trigger] w.subrange(i, j);
    assert forall|k: int| 0 <= k < c.len() implies !is_control_char(#[trigger] c[k]) by {
        assert(c[k] == w[i + k]);
        assert(keep(w[i + k]));
    }
    lemma_filter_all(c, keep);
}

proof fn lemma_filter_all(s: Seq<char>, keep: spec_fn(char) -> bool)
    requires
        forall|i: int| 0 <= i < s.len() ==> keep(#[trigger] s[i]),
    ensures
        s.filter(keep) == s,
    decreases s.len(),
{
    reveal(Seq::filter);
    if s.len() > 0 {
        let t = s.drop_last();
        assert forall|i: int| 0 <= i < t.len() implies keep(#[trigger] t[i]) by {
            assert(t[i] == s[i]);
        }
        lemma_filter_all(t, keep);
        assert(t.push(s.last()) =~= s);
    }
}

// ---------------------------------------------------------------------------
// Events

/// What croc reports.
#[derive(Debug, PartialEq, Eq)]
pub enum CrocEvent<T = String, P = Scaled> {
    /// The code under which the files can be received.
    CodeReady { code: T },
    Progress { percentage: P, speed: T },
    Completed,
    Failed { error: T },
    /// Anything else.
    Other,
}

impl View for CrocEvent<String, Scaled> {
    type V = CrocEvent<Seq<char>, Binary>;

    open spec fn view(&self) -> CrocEvent<Seq<char>, Binary> {
        match *self {
            CrocEvent::CodeReady { code } => CrocEvent::CodeReady { code: code@ },
            CrocEvent::Progress { percentage, speed } => CrocEvent::Progress {
                percentage: percentage@,
                speed: speed@,
            },
            CrocEvent::Completed => CrocEvent::Completed,
            CrocEvent::Failed { error } => CrocEvent::Failed { error: error@ },
            CrocEvent::Other => CrocEvent::Other,
        }
    }
}

/// How croc has ended, as far as that can be told.
#[derive(Debug, PartialEq, Eq)]
pub enum CrocExit {
    Success,
    Failure,
    Unknown,
}

/// What follows from an event of croc's. The transfer changes first, then the status line, then the
/// list of transfers is shown anew, and the transfer is recorded. With `finished` set, the files
/// that were chosen are cleared after sending, and trust bundles are looked for after receiving.
#[derive(Debug, PartialEq, Eq)]
pub struct CrocStep<T = String, P = Scaled> {
    pub patch: Option<Patch<T, P>>,
    pub status: Option<T>,
    pub record: bool,
    pub finished: bool,
    /// No further event is waited for.
    pub done: bool,
}

impl View for CrocStep<String, Scaled> {
    type V = CrocStep<Seq<char>, Binary>;

    open spec fn view(&self) -> CrocStep<Seq<char>, Binary> {
        CrocStep {
            patch: match self.patch {
                Some(p) => Some(p@),
                None => None,
            },
            status: opt_text(self.status),
            record: self.record,
            finished: self.finished,
            done: self.done,
        }
    }
}

/// Nothing follows.
pub open spec fn no_step() -> CrocStep<Seq<char>, Binary> {
    CrocStep { patch: None, status: None, record: false, finished: false, done: false }
}

/// The transfer is complete.
pub open spec fn completed_step(sending: bool) -> CrocStep<Seq<char>, Binary> {
    CrocStep {
        patch: Some(crate::transfer::completed_patch()),
        status: Some(
            if sending {
                "Transfer completed!"@
            } else {
                "Receive completed!"@
            },
        ),
        record: true,
        finished: true,
        done: true,
    }
}

/// The transfer has failed, at this very time.
pub open spec fn failed_step(error: Seq<char>, status: Seq<char>) -> CrocStep<Seq<char>, Binary> {
    CrocStep {
        patch: Some(
            Patch { completed: true, ..crate::transfer::failed_patch(error) },
        ),
        status: Some(status),
        record: true,
        finished: false,
        done: true,
    }
}

/// What follows from an event.
pub open spec fn croc_step(sending: bool, event: CrocEvent<Seq<char>, Binary>) -> CrocStep<
    Seq<char>,
    Binary,
> {
    match event {
        CrocEvent::CodeReady { code } => if sending {
            CrocStep {
                patch: Some(Patch { code: Some(code), ..crate::transfer::no_patch() }),
                status: Some("Code: "@ + code),
                ..no_step()
            }
        } else {
            no_step()
        },
        CrocEvent::Progress { percentage, speed } => CrocStep {
            patch: Some(
                Patch {
                    progress: Some(percentage),
                    speed: Some(speed),
                    ..crate::transfer::no_patch()
                },
            ),
            ..no_step()
        },
        CrocEvent::Completed => completed_step(sending),
        CrocEvent::Failed { error } => failed_step(error, "Failed: "@ + error),
        CrocEvent::Other => no_step(),
    }
}

fn complete(sending: bool) -> (r: CrocStep)
    ensures
        r@ == completed_step(sending),
{
    let status = if sending {
        "Transfer completed!".to_owned()
    } else {
        "Receive completed!".to_owned()
    };
    CrocStep {
        patch: Some(Patch::completed()),
        status: Some(status),
        record: true,
        finished: true,
        done: true,
    }
}

fn fail(error: &str, status: String) -> (r: CrocStep)
    ensures
        r@ == failed_step(error@, status@),
{
    let patch = Patch { completed: true, ..Patch::failed(error) };
    CrocStep { patch: Some(patch), status: Some(status), record: true, finished: false, done: true }
}

/// Takes in an event of croc's while files are sent, or received.
pub fn on_croc_event(sending: bool, event: &CrocEvent) -> (r: CrocStep)
    ensures
        r@ == croc_step(sending, event@),
{
    let (patch, status) = match event {
        CrocEvent::CodeReady { code } => if sending {
            (
                Some(Patch { code: Some(code.clone()), ..Patch::none() }),
                Some(join2("Code: ", code.as_str())),
            )
        } else {
            (None, None)
        },
        CrocEvent::Progress { percentage, speed } => (
            Some(
                Patch { progress: Some(*percentage), speed: Some(speed.clone()), ..Patch::none() },
            ),
            None,
        ),
        CrocEvent::Completed => {
            return complete(sending);
        },
        CrocEvent::Failed { error } => {
            return fail(error.as_str(), join2("Failed: ", error.as_str()));
        },
        CrocEvent::Other => (None, None),
    };
    CrocStep { patch, status, record: false, finished: false, done: false }
}

/// What follows from croc's end: nothing, unless the transfer still counts as running.
pub open spec fn exit_step(sending: bool, current: Option<Status>, exit: CrocExit) -> CrocStep<
    Seq<char>,
    Binary,
> {
    if current == Some(Status::Running) {
        match exit {
            CrocExit::Success => completed_step(sending),
            CrocExit::Failure => failed_step(
                "Transfer failed"@,
                if sending {
                    "Transfer failed"@
                } else {
                    "Receive failed"@
                },
            ),
            CrocExit::Unknown => CrocStep { done: true, ..no_step() },
        }
    } else {
        CrocStep { done: true, ..no_step() }
    }
}

/// Takes in croc's end.
pub fn on_croc_exit(sending: bool, current: Option<Status>, exit: CrocExit) -> (r: CrocStep)
    ensures
        r@ == exit_step(sending, current, exit),
{
    let running = match current {
        Some(Status::Running) => true,
        _ => false,
    };
    if running {
        match exit {
            CrocExit::Success => {
                return complete(sending);
            },
            CrocExit::Failure => {
                let status = if sending {
                    "Transfer failed".to_owned()
                } else {
                    "Receive failed".to_owned()
                };
                return fail("Transfer failed", status);
            },
            CrocExit::Unknown => {},
        }
    }
    CrocStep { patch: None, status: None, record: false, finished: false, done: true }
}

/// What follows where croc cannot be started.
pub fn on_croc_start_failure(error: &str) -> (r: CrocStep)
    ensures
        r@ == (CrocStep {
            patch: Some(crate::transfer::failed_patch(error@)),
            status: Some("Error: "@ + error@),
            record: false,
            finished: false,
            done: true,
        }),
{
    CrocStep {
        patch: Some(Patch::failed(error)),
        status: Some(join2("Error: ", error)),
        record: false,
        finished: false,
        done: true,
    }
}

/// Whatever croc reports, a transfer is recorded just when it ends, and it ends with a status that
/// cannot change any more; chosen files are cleared and bundles looked for only after success.
pub proof fn croc_transfers_end_once(
    sending: bool,
    event: CrocEvent<Seq<char>, Binary>,
    current: Option<Status>,
    exit: CrocExit,
)
    ensures
        croc_step(sending, event).record ==> (croc_step(sending, event).patch matches Some(p)
            && p.completed && (p.status == Some(Status::Completed) || p.status == Some(
            Status::Failed,
        ))),
        croc_step(sending, event).record == croc_step(sending, event).done,
        croc_step(sending, event).finished ==> (croc_step(sending, event).patch matches Some(p)
            && p.status == Some(Status::Completed)),
        current != Some(Status::Running) ==> exit_step(sending, current, exit).patch is None
            && !exit_step(sending, current, exit).record,
{
}

/// The options of a run are the user's settings: the hash algorithm and the curve that were chosen,
/// with MD5 where none was, the throttle and the relay where they are set and not empty, and the code
/// of the user's where there is one. What is received has no code of its own and does not shun the
/// local network; a trust bundle goes out with MD5 and without a throttle besides.
pub proof fn options_follow_the_settings(c: CrocConfig, custom_code: &str, r: CrocOptions)
    requires
        r@ == options_to_send(c@, custom_code@),
    ensures
        c.default_hash matches Some(h) ==> r.hash == h,
        c.default_hash is None ==> r.hash == HashAlgorithm::Md5,
        r.curve == c.default_curve,
        r.no_local == c.no_local,
        custom_code@.len() > 0 ==> (r.code matches Some(code) && code@ == custom_code@),
        custom_code@.len() == 0 ==> r.code is None,
        c.throttle matches Some(t) ==> t@.len() > 0 ==> (r.throttle matches Some(u) && u@ == t@),
        c.throttle is None || c.throttle->0@.len() == 0 ==> r.throttle is None,
        c.default_relay matches Some(t) ==> t@.len() > 0 ==> (r.relay matches Some(u) && u@ == t@),
        c.default_relay is None || c.default_relay->0@.len() == 0 ==> r.relay is None,
{
}

/// Receiving and sending a bundle go by the same settings as sending files, but for what has no
/// meaning there: see [`options_follow_the_settings`].
pub proof fn other_runs_follow_the_settings(c: CrocConfig<Seq<char>>, custom_code: Seq<char>)
    ensures
        options_to_receive(c).hash == options_to_send(c, custom_code).hash,
        options_to_receive(c).curve == c.default_curve,
        options_to_receive(c).throttle == options_to_send(c, custom_code).throttle,
        options_to_receive(c).relay == options_to_send(c, custom_code).relay,
        options_to_receive(c).code is None && !options_to_receive(c).no_local,
        options_to_trust(c).hash == HashAlgorithm::Md5,
        options_to_trust(c).curve == c.default_curve,
        options_to_trust(c).relay == options_to_send(c, custom_code).relay,
        options_to_trust(c).throttle is None,
        options_to_trust(c).code is None && !options_to_trust(c).no_local,
{
}

/// Each algorithm and each curve has its own name, and no other text names one.
pub proof fn algorithms_are_named(s: Seq<char>)
    ensures
        parsed_hash(s) == Some(HashAlgorithm::Xxhash) <==> s == "xxhash"@,
        parsed_hash(s) == Some(HashAlgorithm::Imohash) <==> s == "imohash"@,
        parsed_hash(s) == Some(HashAlgorithm::Md5) <==> s == "md5"@,
        parsed_curve(s) == Some(Curve::Siec) <==> s == "siec"@,
        parsed_curve(s) == Some(Curve::P256) <==> s == "p256"@,
        parsed_curve(s) == Some(Curve::P384) <==> s == "p384"@,
        parsed_curve(s) == Some(Curve::P521) <==> s == "p521"@,
        hash_text(None).len() == 0 && curve_text(None).len() == 0,
{
    choices_survive_display(Some(HashAlgorithm::Xxhash), Some(Curve::Siec));
    choices_survive_display(Some(HashAlgorithm::Imohash), Some(Curve::P256));
    choices_survive_display(Some(HashAlgorithm::Md5), Some(Curve::P384));
    choices_survive_display(None, Some(Curve::P521));
}

/// A code that needs no cleaning is used as it was entered, and one that holds nothing but control
/// characters and white space is none.
pub proof fn clean_codes_are_used_as_entered(code: Seq<char>)
    ensures
        code.len() > 0 && is_trim(code) && (forall|i: int|
            0 <= i < code.len() ==> !is_control_char(#[trigger] code[i])) ==> clean_code(code)
            == Some(code),
        (forall|i: int| 0 <= i < code.len() ==> is_control_char(#[trigger] code[i])) ==> clean_code(
            code,
        ) is None,
        clean_code(code) is None <==> trimmed(without_controls(code)).len() == 0,
        clean_code(code) matches Some(c) ==> c == trimmed(without_controls(code)),
{
    let keep = |c: char| !is_control_char(c);
    if forall|i: int| 0 <= i < code.len() ==> !is_control_char(#[trigger] code[i]) {
        lemma_filter_all(code, keep);
    }
    if forall|i: int| 0 <= i < code.len() ==> is_control_char(#[trigger] code[i]) {
        seqs::lemma_filter_keeps(code, keep);
        if without_controls(code).len() > 0 {
            let c = without_controls(code)[0];
            assert(keep(c) && code.contains(c));
        }
        assert(without_controls(code).len() == 0);
    }
}

/// Each report of croc's changes what it speaks of: the code that was given is kept and told to a
/// sender, progress sets the numbers that were reported, and each end sets its own state, with the
/// error where there is one.
pub proof fn croc_reports_change_what_they_speak_of(sending: bool, event: CrocEvent, step: CrocStep)
    requires
        step@ == croc_step(sending, event@),
    ensures
        event matches CrocEvent::CodeReady { code } ==> sending ==> (step.patch matches Some(p) && (
        p.code matches Some(c) && c@ == code@) && p.status is None) && (step.status matches Some(
            line,
        ) && line@ == "Code: "@ + code@) && !step.done,
        event matches CrocEvent::Progress { percentage, speed } ==> (step.patch matches Some(p) && (
        p.progress matches Some(shown) && shown@ == percentage@) && (p.speed matches Some(s) && s@
            == speed@) && p.status is None && p.code is None && p.error is None) && step.status
            is None && !step.done,
        event is Completed ==> (step.patch matches Some(p) && p.status == Some(Status::Completed)
            && p.completed && p.error is None && (p.progress matches Some(shown) && shown@.mant
            == 100 && shown@.exp == 0)) && step.done && step.record && step.finished && (
        step.status matches Some(line) && line@ == if sending {
            "Transfer completed!"@
        } else {
            "Receive completed!"@
        }),
        event matches CrocEvent::Failed { error } ==> (step.patch matches Some(p) && p.status
            == Some(Status::Failed) && (p.error matches Some(e) && e@ == error@) && p.completed) && (
        step.status matches Some(line) && line@ == "Failed: "@ + error@) && step.done && step.record
            && !step.finished,
        event is Other || (event is CodeReady && !sending) ==> step.patch is None && step.status
            is None && !step.done && !step.record && !step.finished,
{
}

/// When croc ends, a transfer that still runs ends with it, as croc has: completed or failed; one
/// that has ended already is left as it is, and nothing more is waited for.
pub proof fn croc_ends_the_transfer(
    sending: bool,
    current: Option<Status>,
    exit: CrocExit,
    step: CrocStep,
)
    requires
        step@ == exit_step(sending, current, exit),
    ensures
        step.done,
        current == Some(Status::Running) && exit is Success ==> (step.patch matches Some(p)
            && p.status == Some(Status::Completed) && p.completed) && step.record && step.finished,
        current == Some(Status::Running) && exit is Failure ==> (step.patch matches Some(p)
            && p.status == Some(Status::Failed) && (p.error matches Some(e) && e@
            == "Transfer failed"@) && p.completed) && step.record && !step.finished && (
        step.status matches Some(line) && line@ == if sending {
            "Transfer failed"@
        } else {
            "Receive failed"@
        }),
        current != Some(Status::Running) || exit is Unknown ==> step.patch is None && step.status
            is None && !step.record && !step.finished,
{
}

/// A run that did not start fails with its error, is told and ends, but is not recorded.
pub proof fn runs_that_do_not_start_fail(error: &str, r: CrocStep)
    ensures
        call_ensures(on_croc_start_failure, (error,), r) ==> r.done && !r.record && !r.finished && (
        r.status matches Some(line) && line@ == "Error: "@ + error@) && (r.patch matches Some(p)
            && p.status == Some(Status::Failed) && !p.completed && (p.error matches Some(e) && e@
            == error@)),
{
}

} // verus!
