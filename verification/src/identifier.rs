//! Preview identifiers.
//!
//! A preview is named after the pull request it belongs to, `pr-<number>`, or,
//! where there is none, after its branch, `br-<slug>`. The slug is the branch
//! name made safe for use as a DNS label. The name is a function of its two
//! inputs and nothing else, so that a repeated request finds the same preview.

use crate::text::{
    ascii_lower, chars_of, copy_text, join2, leading_run, lemma_leading_run,
    lemma_leading_run_props, lemma_trailing_run, lemma_trailing_run_props, opt_text, string_of,
    strip_prefix, to_ascii_lower, trailing_run, trim_both, trim_front, without_prefix,
};
use vstd::prelude::*;

verus! {

/// Why no identifier could be derived.
#[derive(Clone, Copy, Debug, PartialEq, Eq, Structural)]
pub enum IdentityError {
    /// Neither a pull request number nor a branch name was given.
    MissingIdentitySource,
    /// The branch name has no character left once it is sanitized.
    EmptyIdentifier,
}

impl IdentityError {
    /// A sentence for the caller.
    pub fn message(&self) -> (r: String)
        ensures
            r@ == match *self {
                IdentityError::MissingIdentitySource => "neither a pull request number nor a branch name was given"@,
                IdentityError::EmptyIdentifier => "the branch name is empty once sanitized"@,
            },
    {
        match self {
            IdentityError::MissingIdentitySource => copy_text(
                "neither a pull request number nor a branch name was given",
            ),
            IdentityError::EmptyIdentifier => copy_text("the branch name is empty once sanitized"),
        }
    }
}

/// The characters a DNS label is made of: lower-case letters, digits, hyphen.
pub open spec fn is_label_char(c: char) -> bool {
    ('a' <= c && c <= 'z') || ('0' <= c && c <= '9') || c == '-'
}

/// What one character of a branch name becomes: its lower-case form where
/// that is a label character, a hyphen otherwise.
pub open spec fn label_char(c: char) -> char {
    if is_label_char(ascii_lower(c)) {
        ascii_lower(c)
    } else {
        '-'
    }
}

/// The hyphen, as a predicate.
pub open spec fn is_hyphen() -> spec_fn(char) -> bool {
    |c: char| c == '-'
}

/// `s` with each character replaced by its label character.
pub open spec fn relabelled(s: Seq<char>) -> Seq<char> {
    Seq::new(s.len(), |i: int| label_char(s[i]))
}

/// The slug of a branch name: every character lower-cased, every character
/// that no DNS label may hold (the path separator among them) replaced by a
/// hyphen, and the hyphens at either end dropped.
pub open spec fn sanitized(s: Seq<char>) -> Seq<char> {
    trim_both(relabelled(s), is_hyphen())
}

/// Whether `s` can stand as a DNS label: label characters only, and no hyphen
/// at either end.
pub open spec fn is_label(s: Seq<char>) -> bool {
    &&& forall|i: int| 0 <= i < s.len() ==> is_label_char(#[trigger] s[i])
    &&& s.len() > 0 ==> s[0] != '-' && s.last() != '-'
}

/// The prefix of an identifier that stands for a pull request.
pub open spec fn pr_prefix() -> Seq<char> {
    seq!['p', 'r', '-']
}

/// The prefix of an identifier that stands for a branch.
pub open spec fn br_prefix() -> Seq<char> {
    seq!['b', 'r', '-']
}

/// The identifier of a preview, as a function of the pull request number and
/// the branch name, each of which may be absent. An empty text counts as
/// absent. The pull request number wins over the branch name.
pub open spec fn derived(pr_number: Option<Seq<char>>, branch_name: Option<Seq<char>>) -> Result<
    Seq<char>,
    IdentityError,
> {
    if pr_number is Some && pr_number->0.len() > 0 {
        Ok(pr_prefix() + pr_number->0)
    } else if branch_name is Some && branch_name->0.len() > 0 {
        if sanitized(branch_name->0).len() == 0 {
            Err(IdentityError::EmptyIdentifier)
        } else {
            Ok(br_prefix() + sanitized(branch_name->0))
        }
    } else {
        Err(IdentityError::MissingIdentitySource)
    }
}

/// Whether `r` is what deriving an identifier from the two inputs gives:
/// the identifier where there is one, and the error where there is none.
pub open spec fn is_derivation(
    pr_number: Option<Seq<char>>,
    branch_name: Option<Seq<char>>,
    r: Result<String, IdentityError>,
) -> bool {
    match derived(pr_number, branch_name) {
        Ok(t) => r matches Ok(s) && s@ == t,
        Err(e) => r == Err::<String, IdentityError>(e),
    }
}

/// The text of an optional string slice.
pub open spec fn text_of(s: Option<&str>) -> Option<Seq<char>> {
    match s {
        Some(t) => Some(t@),
        None => None,
    }
}

/// Executable form of [`label_char`].
pub fn to_label_char(c: char) -> (r: char)
    ensures
        r == label_char(c),
{
    let l = to_ascii_lower(c);
    if ('a' <= l && l <= 'z') || ('0' <= l && l <= '9') || l == '-' {
        l
    } else {
        '-'
    }
}

/// The slug of a branch name.
pub fn sanitize(branch_name: &str) -> (r: String)
    ensures
        r@ == sanitized(branch_name@),
        is_label(r@),
{
    let v = chars_of(branch_name);
    let mut w: Vec<char> = Vec::new();
    let mut i: usize = 0;
    while i < v.len()
        invariant
            i <= v.len(),
            w@ == relabelled(v@).take(i as int),
        decreases v.len() - i,
    {
        w.push(to_label_char(v[i]));
        i += 1;
    }
    assert(w@ == relabelled(v@));
    let mut start: usize = 0;
    while start < w.len() && w[start] == '-'
        invariant
            start <= w.len(),
            forall|j: int| 0 <= j < start ==> w@[j] == '-',
        decreases w.len() - start,
    {
        start += 1;
    }
    let mut end: usize = w.len();
    while end > start && w[end - 1] == '-'
        invariant
            start <= end <= w.len(),
            forall|j: int| end <= j < w.len() ==> w@[j] == '-',
        decreases end,
    {
        end -= 1;
    }
    proof {
        let p = is_hyphen();
        assert forall|j: int| 0 <= j < start implies p(#[trigger] w@[j]) by {}
        lemma_leading_run(w@, p, start as int);
        let f = trim_front(w@, p);
        assert(f == w@.skip(start as int));
        assert forall|j: int| f.len() - (w.len() - end) <= j < f.len() implies p(
            #[trigger] f[j],
        ) by {
            assert(f[j] == w@[j + start]);
        }
        if w.len() - end < f.len() {
            assert(f[f.len() - (w.len() - end) - 1] == w@[end - 1]);
        }
        lemma_trailing_run(f, p, (w.len() - end) as int);
        assert(trim_both(w@, p) =~= w@.subrange(start as int, end as int));
        lemma_sanitized_is_label(branch_name@);
    }
    string_of(&w, start, end)
}

/// The identifier of the preview for a pull request or, failing that, for a
/// branch. Fails with `MissingIdentitySource` where neither is given (an empty
/// text is as good as none) and with `EmptyIdentifier` where only a branch is
/// given and nothing is left of its name once sanitized.
pub fn derive(pr_number: Option<&str>, branch_name: Option<&str>) -> (r: Result<
    String,
    IdentityError,
>)
    ensures
        is_derivation(text_of(pr_number), text_of(branch_name), r),
{
    if let Some(pr) = pr_number {
        if !pr.is_empty() {
            let r = join2("pr-", pr);
            proof {
                reveal_strlit("pr-");
                assert("pr-"@ =~= pr_prefix());
            }
            return Ok(r);
        }
    }
    if let Some(branch) = branch_name {
        if !branch.is_empty() {
            let slug = sanitize(branch);
            if slug.as_str().is_empty() {
                return Err(IdentityError::EmptyIdentifier);
            }
            let r = join2("br-", slug.as_str());
            proof {
                reveal_strlit("br-");
                assert("br-"@ =~= br_prefix());
            }
            return Ok(r);
        }
    }
    Err(IdentityError::MissingIdentitySource)
}

/// The identifier of the preview for a pull request or, failing that, for a
/// branch, with the pull request number as it is kept in a request. It gives
/// what [`derive`] gives: the identifier, `MissingIdentitySource` where there
/// is neither a number nor a branch (an empty text is as good as none), and
/// `EmptyIdentifier` where nothing is left of the branch name once sanitized.
pub fn compute_identifier(pr_number: &Option<String>, branch_name: Option<&str>) -> (r: Result<
    String,
    IdentityError,
>)
    ensures
        is_derivation(opt_text(*pr_number), text_of(branch_name), r),
{
    let pr: Option<&str> = match pr_number {
        Some(p) => Some(p.as_str()),
        None => None,
    };
    self::derive(pr, branch_name)
}

/// The pull request number held in an identifier: what follows `pr-`, where
/// the identifier begins with it.
pub open spec fn pr_number_of(identifier: Seq<char>) -> Option<Seq<char>> {
    without_prefix(identifier, pr_prefix())
}

/// Splits an identifier into the pull request number it names, if any, and
/// the identifier itself.
pub fn parse_preview_identifier(identifier: &str) -> (r: (Option<String>, String))
    ensures
        opt_text(r.0) == pr_number_of(identifier@),
        r.1@ == identifier@,
{
    proof {
        reveal_strlit("pr-");
        assert("pr-"@ =~= pr_prefix());
    }
    (strip_prefix(identifier, "pr-"), copy_text(identifier))
}

/// The prefix that a git ref for a branch carries.
pub open spec fn refs_heads() -> Seq<char> {
    seq!['r', 'e', 'f', 's', '/', 'h', 'e', 'a', 'd', 's', '/']
}

/// A branch ref without the `refs/heads/` it may begin with.
pub open spec fn branch_of_ref(s: Seq<char>) -> Seq<char> {
    match without_prefix(s, refs_heads()) {
        Some(t) => t,
        None => s,
    }
}

/// A branch ref without the `refs/heads/` it may begin with.
pub fn strip_refs_heads(s: &str) -> (r: String)
    ensures
        r@ == branch_of_ref(s@),
{
    proof {
        reveal_strlit("refs/heads/");
        assert("refs/heads/"@ =~= refs_heads());
    }
    match strip_prefix(s, "refs/heads/") {
        Some(t) => t,
        None => copy_text(s),
    }
}

/// A slug is a DNS label.
pub proof fn lemma_sanitized_is_label(s: Seq<char>)
    ensures
        is_label(sanitized(s)),
{
    let p = is_hyphen();
    let w = relabelled(s);
    let f = trim_front(w, p);
    let t = sanitized(s);
    lemma_leading_run_props(w, p);
    lemma_trailing_run_props(f, p);
    assert forall|i: int| 0 <= i < t.len() implies is_label_char(#[trigger] t[i]) by {
        assert(t[i] == f[i]);
        assert(f[i] == w[i + leading_hyphens(w)]);
    }
    if t.len() > 0 {
        assert(t[0] == f[0]);
        assert(f[0] == w[leading_hyphens(w)]);
        assert(t.last() == f[f.len() - trailing_run(f, p) - 1]);
    }
}

/// The number of hyphens at the front of `w`.
pub open spec fn leading_hyphens(w: Seq<char>) -> int {
    leading_run(w, is_hyphen()) as int
}

/// A DNS label is its own slug.
pub proof fn lemma_label_is_own_slug(s: Seq<char>)
    requires
        is_label(s),
    ensures
        sanitized(s) == s,
{
    let p = is_hyphen();
    let w = relabelled(s);
    assert(w =~= s);
    lemma_leading_run(s, p, 0);
    assert(trim_front(s, p) =~= s);
    lemma_trailing_run(s, p, 0);
    assert(trim_both(s, p) =~= s);
}

/// Sanitizing twice gives what sanitizing once gives.
pub proof fn sanitize_is_idempotent(s: Seq<char>)
    ensures
        sanitized(sanitized(s)) == sanitized(s),
{
    lemma_sanitized_is_label(s);
    lemma_label_is_own_slug(sanitized(s));
}

/// An identifier derived from a branch name is unchanged by sanitizing it
/// again: it is a DNS label already.
pub proof fn branch_identifier_is_sanitized(branch_name: Seq<char>)
    requires
        derived(None, Some(branch_name)) is Ok,
    ensures
        is_label(derived(None, Some(branch_name))->Ok_0),
        sanitized(derived(None, Some(branch_name))->Ok_0) == derived(
            None,
            Some(branch_name),
        )->Ok_0,
{
    let t = sanitized(branch_name);
    let id = br_prefix() + t;
    lemma_sanitized_is_label(branch_name);
    assert forall|i: int| 0 <= i < id.len() implies is_label_char(#[trigger] id[i]) by {
        if i >= 3 {
            assert(id[i] == t[i - 3]);
        }
    }
    assert(id.last() == t.last());
    lemma_label_is_own_slug(id);
}

/// Deriving an identifier is a function of its inputs: whatever is derived
/// from the same pull request number and the same branch name is the same
/// identifier, or the same error.
pub proof fn derivation_is_deterministic(
    pr_number: Option<Seq<char>>,
    branch_name: Option<Seq<char>>,
    first: Result<String, IdentityError>,
    second: Result<String, IdentityError>,
)
    requires
        is_derivation(pr_number, branch_name, first),
        is_derivation(pr_number, branch_name, second),
    ensures
        first is Ok <==> second is Ok,
        first is Ok ==> first->Ok_0@ == second->Ok_0@,
        first is Err ==> first->Err_0 == second->Err_0,
{
}

/// A pull request number, where one is given, decides the identifier whatever
/// the branch name is.
pub proof fn pr_number_takes_precedence(pr_number: Seq<char>, branch_name: Option<Seq<char>>)
    requires
        pr_number.len() > 0,
    ensures
        derived(Some(pr_number), branch_name) == Ok::<Seq<char>, IdentityError>(
            pr_prefix() + pr_number,
        ),
{
}

/// Without a pull request number and without a branch name, or with an empty
/// one, there is no identifier; nor is there one for a branch name made of
/// separators alone.
pub proof fn empty_inputs_are_rejected(branch_name: Seq<char>)
    ensures
        derived(None, None) == Err::<Seq<char>, IdentityError>(
            IdentityError::MissingIdentitySource,
        ),
        derived(None, Some(Seq::<char>::empty())) == Err::<Seq<char>, IdentityError>(
            IdentityError::MissingIdentitySource,
        ),
        branch_name.len() > 0 && (forall|i: int|
            0 <= i < branch_name.len() ==> !is_label_char(
                ascii_lower(#[trigger] branch_name[i]),
            ) || branch_name[i] == '-') ==> derived(None, Some(branch_name)) == Err::<
            Seq<char>,
            IdentityError,
        >(IdentityError::EmptyIdentifier),
{
    if branch_name.len() > 0 && (forall|i: int|
        0 <= i < branch_name.len() ==> !is_label_char(ascii_lower(#[trigger] branch_name[i]))
            || branch_name[i] == '-') {
        let p = is_hyphen();
        let w = relabelled(branch_name);
        assert forall|i: int| 0 <= i < w.len() implies p(#[trigger] w[i]) by {
            assert(w[i] == label_char(branch_name[i]));
        }
        lemma_leading_run(w, p, w.len() as int);
        assert(trim_front(w, p).len() == 0);
        lemma_trailing_run(trim_front(w, p), p, 0);
        assert(sanitized(branch_name).len() == 0);
    }
}

/// An identifier is never empty: it holds its prefix and at least one
/// character more.
pub proof fn identifier_is_not_empty(pr_number: Option<Seq<char>>, branch_name: Option<Seq<char>>)
    requires
        derived(pr_number, branch_name) is Ok,
    ensures
        derived(pr_number, branch_name)->Ok_0.len() > 3,
        pr_prefix().is_prefix_of(derived(pr_number, branch_name)->Ok_0) || br_prefix().is_prefix_of(
            derived(pr_number, branch_name)->Ok_0,
        ),
{
    let id = derived(pr_number, branch_name)->Ok_0;
    if pr_number is Some && pr_number->0.len() > 0 {
        assert(id.subrange(0, 3) =~= pr_prefix());
    } else {
        assert(id.subrange(0, 3) =~= br_prefix());
    }
}

} // verus!
