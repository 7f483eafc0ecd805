//! Picking the battery devices out of the entries of the power-supply root.

use vstd::prelude::*;

verus! {

#[verifier::external_type_specification]
#[verifier::external_body]
pub struct ExRegexError(regex::Error);

/// Whether `text` holds a match of the regular expression `pattern`, in the
/// syntax of the `regex` crate.
pub uninterp spec fn regex_match(pattern: Seq<char>, text: Seq<char>) -> bool;

/// Whether `pattern` is a regular expression that the `regex` crate accepts.
pub uninterp spec fn regex_compiles(pattern: Seq<char>) -> bool;

/// Relies on `regex::Regex::new`, which compiles `pattern` or reports why it
/// cannot (the outcome depends on the pattern alone), and
/// `regex::Regex::is_match`, which tells whether the compiled expression
/// matches anywhere in `text`.
#[verifier::external_body]
fn pattern_matches(pattern: &str, text: &str) -> (r: Result<bool, regex::Error>)
    ensures
        r is Ok <==> regex_compiles(pattern@),
        r is Ok ==> r->Ok_0 == regex_match(pattern@, text@),
{
    match regex::Regex::new(pattern) {
        Ok(re) => Ok(re.is_match(text)),
        Err(e) => Err(e),
    }
}

/// Device names of batteries: `BAT` and one or more digits, the whole name.
pub const BATTERY_PATTERN: &'static str = "^BAT\\d+$";

/// The battery name pattern could not be compiled.
#[derive(Clone, Copy, Debug, PartialEq, Eq, Structural)]
pub struct PatternError;

/// Whether a device name is a battery's name.
pub fn is_battery_name(name: &str) -> (r: Result<bool, PatternError>)
    ensures
        r is Ok <==> regex_compiles(BATTERY_PATTERN@),
        r is Ok ==> r->Ok_0 == regex_match(BATTERY_PATTERN@, name@),
{
    match pattern_matches(BATTERY_PATTERN, name) {
        Ok(b) => Ok(b),
        Err(_) => Err(PatternError),
    }
}

/// The names whose flag is set, in their order.
pub open spec fn flagged(names: Seq<String>, flags: Seq<bool>) -> Seq<String>
    decreases names.len(),
{
    if names.len() == 0 || flags.len() == 0 {
        Seq::empty()
    } else if flags.last() {
        flagged(names.drop_last(), flags.drop_last()).push(names.last())
    } else {
        flagged(names.drop_last(), flags.drop_last())
    }
}

/// The battery names among `names`, in their order.
pub open spec fn battery_names(names: Seq<String>) -> Seq<String>
    decreases names.len(),
{
    if names.len() == 0 {
        Seq::empty()
    } else if regex_match(BATTERY_PATTERN@, names.last()@) {
        battery_names(names.drop_last()).push(names.last())
    } else {
        battery_names(names.drop_last())
    }
}

/// Entries that are not battery names are skipped: inserting one anywhere in
/// the listing leaves the selected battery names unchanged.
pub proof fn lemma_other_entries_skipped(before: Seq<String>, other: String, after: Seq<String>)
    requires
        !regex_match(BATTERY_PATTERN@, other@),
    ensures
        battery_names(before + seq![other] + after) == battery_names(before + after),
    decreases after.len(),
{
    if after.len() == 0 {
        assert((before + seq![other] + after).drop_last() =~= before);
        assert(before + after =~= before);
    } else {
        let rest = after.drop_last();
        lemma_other_entries_skipped(before, other, rest);
        assert((before + seq![other] + after).drop_last() =~= before + seq![other] + rest);
        assert((before + after).drop_last() =~= before + rest);
        assert((before + seq![other] + after).last() == after.last());
        assert((before + after).last() == after.last());
    }
}

/// Keeps the names whose flag is set, in their order.
pub fn keep_flagged(names: &Vec<String>, flags: &Vec<bool>) -> (r: Vec<String>)
    requires
        names@.len() == flags@.len(),
    ensures
        r@ == flagged(names@, flags@),
{
    let mut kept: Vec<String> = Vec::new();
    let mut i: usize = 0;
    while i < names.len()
        invariant
            names@.len() == flags@.len(),
            i <= names@.len(),
            kept@ == flagged(names@.subrange(0, i as int), flags@.subrange(0, i as int)),
        decreases names@.len() - i,
    {
        assert(names@.subrange(0, i + 1).drop_last() =~= names@.subrange(0, i as int));
        assert(flags@.subrange(0, i + 1).drop_last() =~= flags@.subrange(0, i as int));
        if flags[i] {
            kept.push(names[i].clone());
        }
        i = i + 1;
    }
    assert(names@.subrange(0, i as int) =~= names@);
    assert(flags@.subrange(0, i as int) =~= flags@);
    kept
}

proof fn lemma_flags_select_batteries(names: Seq<String>, flags: Seq<bool>)
    requires
        names.len() == flags.len(),
        forall|i: int| 0 <= i < names.len() ==> flags[i] == regex_match(BATTERY_PATTERN@, #[trigger] names[i]@),
    ensures
        flagged(names, flags) == battery_names(names),
    decreases names.len(),
{
    if names.len() > 0 {
        let n = names.len() - 1;
        assert forall|i: int| 0 <= i < n implies flags.drop_last()[i]
            == regex_match(BATTERY_PATTERN@, #[trigger] names.drop_last()[i]@) by {
            assert(names.drop_last()[i] == names[i]);
        }
        assert(flags.last() == regex_match(BATTERY_PATTERN@, names[n]@));
        lemma_flags_select_batteries(names.drop_last(), flags.drop_last());
    }
}

/// The battery names among the entries of the power-supply root, in their
/// order; other entries are skipped.
pub fn select_batteries(names: &Vec<String>) -> (r: Result<Vec<String>, PatternError>)
    ensures
        regex_compiles(BATTERY_PATTERN@) ==> r is Ok,
        r is Ok ==> r->Ok_0@ == battery_names(names@),
{
    let mut flags: Vec<bool> = Vec::new();
    let mut i: usize = 0;
    while i < names.len()
        invariant
            i <= names@.len(),
            flags@.len() == i,
            forall|j: int| 0 <= j < i ==> flags@[j] == regex_match(BATTERY_PATTERN@, #[trigger] names@[j]@),
        decreases names@.len() - i,
    {
        let b = is_battery_name(names[i].as_str())?;
        flags.push(b);
        i = i + 1;
    }
    proof {
        lemma_flags_select_batteries(names@, flags@);
    }
    Ok(keep_flagged(names, &flags))
}

} // verus!
