use vstd::prelude::*;

verus! {

/// The view of an optional borrowed string, as an optional character sequence.
pub open spec fn opt_str_view(o: Option<&str>) -> Option<Seq<char>> {
    match o {
        Some(s) => Some(s@),
        None => None,
    }
}

/// A first-attempt generation prompt: the instruction text, a literal diff
/// section and, when present, a nature-of-change annotation, concatenated in
/// that fixed order.
pub open spec fn initial_prompt_view(
    template: Seq<char>,
    diff: Seq<char>,
    nature: Option<Seq<char>>,
) -> Seq<char> {
    let base = template + " for these changes:\n"@ + diff;
    match nature {
        Some(n) => base + " type:"@ + n,
        None => base,
    }
}

/// A regeneration prompt: the corrective note, the instruction text,
/// optionally the diff section again, and the rejected candidate verbatim
/// at the end.
pub open spec fn corrective_prompt_view(
    follow_up: Seq<char>,
    template: Seq<char>,
    rejected: Seq<char>,
    diff: Option<Seq<char>>,
) -> Seq<char> {
    let base = follow_up + " "@ + template;
    let with_diff = match diff {
        Some(d) => base + " for these changes:\n"@ + d,
        None => base,
    };
    with_diff + rejected
}

/// Assemble the prompt for the first generation attempt.
pub fn initial_prompt(template: &str, diff: &str, nature: Option<&str>) -> (p: String)
    ensures
        p@ == initial_prompt_view(template@, diff@, opt_str_view(nature)),
{
    let mut p = template.to_owned();
    p.append(" for these changes:\n");
    p.append(diff);
    if let Some(n) = nature {
        p.append(" type:");
        p.append(n);
    }
    proof {
        assert(p@ =~= initial_prompt_view(template@, diff@, opt_str_view(nature)));
    }
    p
}

/// Assemble the prompt for a regeneration attempt after a rejection.
pub fn corrective_prompt(follow_up: &str, template: &str, rejected: &str, diff: Option<&str>) -> (p:
    String)
    ensures
        p@ == corrective_prompt_view(follow_up@, template@, rejected@, opt_str_view(diff)),
{
    let mut p = follow_up.to_owned();
    p.append(" ");
    p.append(template);
    if let Some(d) = diff {
        p.append(" for these changes:\n");
        p.append(d);
    }
    p.append(rejected);
    proof {
        assert(p@ =~= corrective_prompt_view(follow_up@, template@, rejected@, opt_str_view(diff)));
    }
    p
}

/// Every regeneration prompt carries the rejected candidate verbatim: the
/// candidate is exactly the tail of the assembled prompt.
pub proof fn lemma_corrective_prompt_embeds_rejected(
    follow_up: Seq<char>,
    template: Seq<char>,
    rejected: Seq<char>,
    diff: Option<Seq<char>>,
)
    ensures
        ({
            let p = corrective_prompt_view(follow_up, template, rejected, diff);
            &&& p.len() >= rejected.len()
            &&& p.subrange(p.len() - rejected.len(), p.len() as int) == rejected
        }),
{
    let p = corrective_prompt_view(follow_up, template, rejected, diff);
    assert(p.subrange(p.len() - rejected.len(), p.len() as int) =~= rejected);
}

/// Two regeneration prompts assembled from the same configuration and diff
/// agree only when the embedded rejected candidates agree: distinct rejected
/// candidates always yield distinct prompts.
pub proof fn lemma_corrective_prompt_identifies_rejected(
    follow_up: Seq<char>,
    template: Seq<char>,
    r1: Seq<char>,
    r2: Seq<char>,
    diff: Option<Seq<char>>,
)
    requires
        corrective_prompt_view(follow_up, template, r1, diff) == corrective_prompt_view(
            follow_up,
            template,
            r2,
            diff,
        ),
    ensures
        r1 == r2,
{
    let p1 = corrective_prompt_view(follow_up, template, r1, diff);
    let p2 = corrective_prompt_view(follow_up, template, r2, diff);
    assert(p1.len() - r1.len() == p2.len() - r2.len());
    lemma_corrective_prompt_embeds_rejected(follow_up, template, r1, diff);
    lemma_corrective_prompt_embeds_rejected(follow_up, template, r2, diff);
}

/// When regeneration occurs, the prompt sent is never the one sent first:
/// a corrective prompt differs from the initial prompt whenever the
/// corrective note and the instruction text start with different characters.
pub proof fn lemma_regeneration_changes_prompt(
    follow_up: Seq<char>,
    template: Seq<char>,
    diff: Seq<char>,
    nature: Option<Seq<char>>,
    rejected: Seq<char>,
    diff_on_retry: Option<Seq<char>>,
)
    requires
        follow_up.len() > 0,
        template.len() > 0,
        follow_up[0] != template[0],
    ensures
        corrective_prompt_view(follow_up, template, rejected, diff_on_retry)
            != initial_prompt_view(template, diff, nature),
{
    let c = corrective_prompt_view(follow_up, template, rejected, diff_on_retry);
    let i = initial_prompt_view(template, diff, nature);
    assert(c[0] == follow_up[0]);
    assert(i[0] == template[0]);
}

/// The fixed instruction text sent with every diff.
pub fn default_template() -> (t: &'static str)
    ensures
        t@ == default_template_view(),
{
    "Generate a commit message up to 255 characters, adhering to the Conventional Commits specification and Semantic Versioning guidelines. Respond ONLY with the commit message, without any formatting or surrounding text. Use the following types to describe changes: fix: for bug fixes (PATCH), feat: for new features (MINOR), BREAKING CHANGE: or feat!: for major changes (MAJOR). Other types like build:, chore:, docs:, style:, refactor:, perf:, and test: provide context without affecting versioning unless marked as breaking. Scopes (e.g., feat(api):) are optional but add useful context for maintainers."
}

/// The view of the fixed instruction text.
pub open spec fn default_template_view() -> Seq<char> {
    "Generate a commit message up to 255 characters, adhering to the Conventional Commits specification and Semantic Versioning guidelines. Respond ONLY with the commit message, without any formatting or surrounding text. Use the following types to describe changes: fix: for bug fixes (PATCH), feat: for new features (MINOR), BREAKING CHANGE: or feat!: for major changes (MAJOR). Other types like build:, chore:, docs:, style:, refactor:, perf:, and test: provide context without affecting versioning unless marked as breaking. Scopes (e.g., feat(api):) are optional but add useful context for maintainers."@
}

/// The fixed corrective note that precedes the instruction text on a
/// regeneration attempt.
pub fn default_follow_up() -> (t: &'static str)
    ensures
        t@ == default_follow_up_view(),
{
    "The previous message was unsatisfactory, retry following the original instructions. Avoid repeating this rejected message:"
}

/// The view of the fixed corrective note.
pub open spec fn default_follow_up_view() -> Seq<char> {
    "The previous message was unsatisfactory, retry following the original instructions. Avoid repeating this rejected message:"@
}

} // verus!
