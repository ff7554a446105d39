//! The current upstream target: its validation, and the register that holds
//! it for every session and for the control endpoint.
use vstd::prelude::*;
use crate::error::ProxyError;

verus! {

#[verifier::external_type_specification]
#[verifier::external_body]
pub struct ExRegexError(regex::Error);

/// An ASCII decimal digit.
pub open spec fn is_digit(c: char) -> bool {
    '0' <= c <= '9'
}

/// Between `lo` and `hi` ASCII digits, nothing else.
pub open spec fn digit_run(s: Seq<char>, lo: nat, hi: nat) -> bool {
    &&& lo <= s.len() <= hi
    &&& forall|i: int| 0 <= i < s.len() ==> is_digit(#[trigger] s[i])
}

/// `s` is four dot-separated runs of one to three digits, a colon, and a run
/// of four or five digits.
pub open spec fn target_shape(s: Seq<char>) -> bool {
    exists|a: Seq<char>, b: Seq<char>, c: Seq<char>, d: Seq<char>, p: Seq<char>|
        #![trigger digit_run(a, 1, 3), digit_run(b, 1, 3), digit_run(c, 1, 3), digit_run(d, 1, 3), digit_run(p, 4, 5)]
        {
            &&& digit_run(a, 1, 3)
            &&& digit_run(b, 1, 3)
            &&& digit_run(c, 1, 3)
            &&& digit_run(d, 1, 3)
            &&& digit_run(p, 4, 5)
            &&& s == a + seq!['.'] + b + seq!['.'] + c + seq!['.'] + d + seq![':'] + p
        }
}

/// The pattern that accepts exactly the strings of `target_shape`.
pub open spec fn target_pattern() -> Seq<char> {
    "^(?:[0-9]{1,3}\\.){3}[0-9]{1,3}:[0-9]{4,5}$"@
}

/// Relies on `regex::Regex::new`, which compiles the target pattern without
/// error, and `Regex::is_match`, which for that anchored pattern of ASCII digit
/// classes holds exactly of the strings of `target_shape`.
#[verifier::external_body]
fn regex_is_match(pattern: &str, haystack: &str) -> (r: Result<bool, regex::Error>)
    requires
        pattern@ == target_pattern(),
    ensures
        r is Ok && r->Ok_0 == target_shape(haystack@),
{
    let re = regex::Regex::new(pattern)?;
    Ok(re.is_match(haystack))
}

/// Whether `target` is an `IPv4:port` address: four runs of one to three
/// digits separated by dots, then a colon and four or five digits.
pub fn is_valid_target(target: &str) -> (r: bool)
    ensures
        r == target_shape(target@),
{
    match regex_is_match("^(?:[0-9]{1,3}\\.){3}[0-9]{1,3}:[0-9]{4,5}$", target) {
        Ok(m) => m,
        Err(_) => false,
    }
}

/// The current upstream target: one `IPv4:port` address. Every session
/// reads it and the control endpoint replaces it; sharing it across tasks
/// takes a lock around the register, so that each reader sees whole values.
pub struct TargetRegister {
    addr: String,
}

impl View for TargetRegister {
    type V = Seq<char>;

    closed spec fn view(&self) -> Seq<char> {
        self.addr@
    }
}

impl TargetRegister {
    /// The register always holds a well-formed target.
    pub open spec fn wf(&self) -> bool {
        target_shape(self@)
    }

    /// A register that holds `initial`.
    pub fn new(initial: String) -> (r: Self)
        requires
            target_shape(initial@),
        ensures
            r@ == initial@,
    {
        TargetRegister { addr: initial }
    }

    /// The target stored last.
    pub fn get(&self) -> (r: String)
        ensures
            r@ == self@,
    {
        self.addr.clone()
    }

    /// Replaces the stored target.
    pub fn set(&mut self, addr: String)
        requires
            target_shape(addr@),
        ensures
            final(self)@ == addr@,
    {
        self.addr = addr;
    }
}

/// What the register holds after the control endpoint was asked for
/// `new_target`: that target where it is well formed, else what it held.
pub open spec fn after_update(current: Seq<char>, new_target: Seq<char>) -> Seq<char> {
    if target_shape(new_target) {
        new_target
    } else {
        current
    }
}

/// What the control endpoint does with a requested target: stores it where
/// it is well formed, and refuses it otherwise, leaving the register as it was.
pub fn update_target(register: &mut TargetRegister, new_target: String) -> (r: Result<
    (),
    ProxyError,
>)
    ensures
        r == (if target_shape(new_target@) {
            Ok::<(), ProxyError>(())
        } else {
            Err(ProxyError::InvalidTargetFormat)
        }),
        final(register)@ == after_update(old(register)@, new_target@),
{
    if is_valid_target(new_target.as_str()) {
        register.set(new_target);
        Ok(())
    } else {
        Err(ProxyError::InvalidTargetFormat)
    }
}

/// Asking twice for the same target leaves the register as asking once.
pub proof fn lemma_update_idempotent(current: Seq<char>, new_target: Seq<char>)
    ensures
        after_update(after_update(current, new_target), new_target) == after_update(
            current,
            new_target,
        ),
{
}

/// Of two requests handled one after the other, the later one decides where
/// it is well formed; otherwise the earlier one does.
pub proof fn lemma_last_valid_update_wins(current: Seq<char>, first: Seq<char>, second: Seq<char>)
    ensures
        target_shape(second) ==> after_update(after_update(current, first), second) == second,
        !target_shape(second) ==> after_update(after_update(current, first), second)
            == after_update(current, first),
{
}

/// A register that holds a well-formed target still does after any request.
pub proof fn lemma_update_keeps_well_formed(current: Seq<char>, new_target: Seq<char>)
    requires
        target_shape(current),
    ensures
        target_shape(after_update(current, new_target)),
{
}

/// The HTTP status and body that answer a control request.
pub fn control_reply(outcome: Result<(), ProxyError>) -> (r: (u16, String))
    ensures
        outcome is Ok ==> r.0 == 200 && r.1@ == "Proxy updated"@,
        outcome is Err ==> r.0 == 400 && r.1@ == "Invalid address"@,
{
    match outcome {
        Ok(()) => (200, String::from_str("Proxy updated")),
        Err(_) => (400, String::from_str("Invalid address")),
    }
}

} // verus!
