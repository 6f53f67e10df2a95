use vstd::prelude::*;

use crate::sentinel::{text_is, ValidationError};

verus! {

/// Who may see a published flake.
#[derive(Clone, Copy, Debug, PartialEq, Eq)]
pub enum Visibility {
    Public,
    Unlisted,
    Private,
}

/// The visibility that a text names; outer `None` where the text is
/// rejected, inner `None` for the empty text.
pub open spec fn visibility_spec(raw: Seq<char>) -> Option<Option<Visibility>> {
    if raw.len() == 0 {
        Some(None)
    } else if raw == "public"@ {
        Some(Some(Visibility::Public))
    } else if raw == "unlisted"@ {
        Some(Some(Visibility::Unlisted))
    } else if raw == "private"@ {
        Some(Some(Visibility::Private))
    } else {
        None
    }
}

/// Reads an optional visibility: empty means unset; otherwise one of
/// `public`, `unlisted`, `private`.
pub fn parse_visibility(raw: &str) -> (r: Result<Option<Visibility>, ValidationError>)
    ensures
        match visibility_spec(raw@) {
            Some(v) => r == Ok::<Option<Visibility>, ValidationError>(v),
            None => r matches Err(ValidationError::InvalidVisibility(t)) && t@ == raw@,
        },
{
    if raw.is_empty() {
        Ok(None)
    } else if text_is(raw, "public") {
        Ok(Some(Visibility::Public))
    } else if text_is(raw, "unlisted") {
        Ok(Some(Visibility::Unlisted))
    } else if text_is(raw, "private") {
        Ok(Some(Visibility::Private))
    } else {
        Err(ValidationError::InvalidVisibility(raw.to_owned()))
    }
}

/// A configuration field that is read from a flag or the environment.
#[derive(Clone, Copy, Debug, PartialEq, Eq)]
pub enum Field {
    Host,
    Visibility,
    Tag,
    RollingMinor,
    Rolling,
    GithubToken,
    Name,
    Repository,
    Directory,
    GitRoot,
    Mirror,
    JwtIssuerUri,
    ExtraLabels,
    ExtraTags,
    SpdxExpression,
    ErrorOnConflict,
    IncludeOutputPaths,
}

/// The environment variables bound to a field, in the order in which they
/// are consulted when its flag is absent.
pub open spec fn env_names_spec(f: Field) -> Seq<Seq<char>> {
    match f {
        Field::Host => seq!["FLAKEHUB_PUSH_HOST"@],
        Field::Visibility => seq!["FLAKEHUB_PUSH_VISIBILITY"@, "FLAKEHUB_PUSH_VISIBLITY"@],
        Field::Tag => seq!["FLAKEHUB_PUSH_TAG"@],
        Field::RollingMinor => seq!["FLAKEHUB_PUSH_ROLLING_MINOR"@],
        Field::Rolling => seq!["FLAKEHUB_PUSH_ROLLING"@],
        Field::GithubToken => seq!["FLAKEHUB_PUSH_GITHUB_TOKEN"@],
        Field::Name => seq!["FLAKEHUB_PUSH_NAME"@],
        Field::Repository => seq!["FLAKEHUB_PUSH_REPOSITORY"@],
        Field::Directory => seq!["FLAKEHUB_PUSH_DIRECTORY"@],
        Field::GitRoot => seq!["FLAKEHUB_PUSH_GIT_ROOT"@],
        Field::Mirror => seq!["FLAKEHUB_PUSH_MIRROR"@],
        Field::JwtIssuerUri => seq!["FLAKEHUB_PUSH_JWT_ISSUER_URI"@],
        Field::ExtraLabels => seq!["FLAKEHUB_PUSH_EXTRA_LABELS"@],
        Field::ExtraTags => seq!["FLAKEHUB_PUSH_EXTRA_TAGS"@],
        Field::SpdxExpression => seq!["FLAKEHUB_PUSH_SPDX_EXPRESSION"@],
        Field::ErrorOnConflict => seq!["FLAKEHUB_PUSH_ERROR_ON_CONFLICT"@],
        Field::IncludeOutputPaths => seq!["FLAKEHUB_PUSH_INCLUDE_OUTPUT_PATHS"@],
    }
}

/// The environment variables bound to a field, in the order in which they
/// are consulted. The visibility keeps a misspelled legacy name after its
/// current one.
pub fn env_names(f: Field) -> (r: Vec<&'static str>)
    ensures
        r@.len() == env_names_spec(f).len(),
        forall|i: int| 0 <= i < r@.len() ==> (#[trigger] r@[i])@ == env_names_spec(f)[i],
{
    match f {
        Field::Host => vec!["FLAKEHUB_PUSH_HOST"],
        Field::Visibility => vec!["FLAKEHUB_PUSH_VISIBILITY", "FLAKEHUB_PUSH_VISIBLITY"],
        Field::Tag => vec!["FLAKEHUB_PUSH_TAG"],
        Field::RollingMinor => vec!["FLAKEHUB_PUSH_ROLLING_MINOR"],
        Field::Rolling => vec!["FLAKEHUB_PUSH_ROLLING"],
        Field::GithubToken => vec!["FLAKEHUB_PUSH_GITHUB_TOKEN"],
        Field::Name => vec!["FLAKEHUB_PUSH_NAME"],
        Field::Repository => vec!["FLAKEHUB_PUSH_REPOSITORY"],
        Field::Directory => vec!["FLAKEHUB_PUSH_DIRECTORY"],
        Field::GitRoot => vec!["FLAKEHUB_PUSH_GIT_ROOT"],
        Field::Mirror => vec!["FLAKEHUB_PUSH_MIRROR"],
        Field::JwtIssuerUri => vec!["FLAKEHUB_PUSH_JWT_ISSUER_URI"],
        Field::ExtraLabels => vec!["FLAKEHUB_PUSH_EXTRA_LABELS"],
        Field::ExtraTags => vec!["FLAKEHUB_PUSH_EXTRA_TAGS"],
        Field::SpdxExpression => vec!["FLAKEHUB_PUSH_SPDX_EXPRESSION"],
        Field::ErrorOnConflict => vec!["FLAKEHUB_PUSH_ERROR_ON_CONFLICT"],
        Field::IncludeOutputPaths => vec!["FLAKEHUB_PUSH_INCLUDE_OUTPUT_PATHS"],
    }
}

/// What the command line and the environment hold for one field: the flag's
/// value if it was given, and the value of each bound variable, in the order
/// of `env_names`.
#[derive(Clone, Debug)]
pub struct RawSource {
    pub flag: Option<String>,
    pub env: Vec<Option<String>>,
}

/// The first variable that is set.
pub open spec fn first_present(env: Seq<Option<String>>) -> Option<String>
    decreases env.len(),
{
    if env.len() == 0 {
        None
    } else if env[0] is Some {
        env[0]
    } else {
        first_present(env.drop_first())
    }
}

/// The raw text that wins for a field: its flag, else its first set
/// variable, else the default.
pub open spec fn chosen_raw(src: RawSource, default: Seq<char>) -> Seq<char> {
    match src.flag {
        Some(f) => f@,
        None => match first_present(src.env@) {
            Some(e) => e@,
            None => default,
        },
    }
}

/// Picks the raw text that wins for a field.
pub fn choose_raw(src: &RawSource, default: &str) -> (r: String)
    ensures
        r@ == chosen_raw(*src, default@),
{
    if let Some(f) = &src.flag {
        return f.clone();
    }
    let mut i: usize = 0;
    assert(src.env@.subrange(0, src.env@.len() as int) =~= src.env@);
    while i < src.env.len()
        invariant
            src.flag is None,
            i <= src.env@.len(),
            first_present(src.env@) == first_present(src.env@.subrange(i as int, src.env@.len() as int)),
        decreases src.env@.len() - i,
    {
        let ghost rest = src.env@.subrange(i as int, src.env@.len() as int);
        assert(rest.drop_first() =~= src.env@.subrange(i + 1, src.env@.len() as int));
        assert(rest[0] == src.env@[i as int]);
        if let Some(e) = &src.env[i] {
            return e.clone();
        }
        i = i + 1;
    }
    assert(src.env@.subrange(i as int, src.env@.len() as int) =~= Seq::<Option<String>>::empty());
    default.to_owned()
}

/// The pieces of a text between commas, in order: `a,,b` has three.
pub open spec fn split_commas(s: Seq<char>) -> Seq<Seq<char>>
    decreases s.len(),
{
    if s.len() == 0 {
        seq![Seq::empty()]
    } else {
        let prev = split_commas(s.drop_last());
        if s.last() == ',' {
            prev.push(Seq::empty())
        } else {
            prev.update(prev.len() - 1, prev.last().push(s.last()))
        }
    }
}

proof fn lemma_split_nonempty(s: Seq<char>)
    ensures
        split_commas(s).len() >= 1,
    decreases s.len(),
{
    if s.len() > 0 {
        lemma_split_nonempty(s.drop_last());
    }
}

/// A comma-delimited list: the empty text is the empty list; otherwise the
/// pieces between commas, in order, duplicates and empty pieces kept.
pub open spec fn list_spec(raw: Seq<char>) -> Seq<Seq<char>> {
    if raw.len() == 0 {
        Seq::empty()
    } else {
        split_commas(raw)
    }
}

/// The texts of a list of strings.
pub open spec fn texts(v: Seq<String>) -> Seq<Seq<char>> {
    v.map_values(|s: String| s@)
}

/// Reads a comma-delimited list.
pub fn parse_list(raw: &str) -> (r: Vec<String>)
    ensures
        texts(r@) == list_spec(raw@),
{
    let mut out: Vec<String> = Vec::new();
    let n = raw.unicode_len();
    if n == 0 {
        assert(texts(out@) =~= list_spec(raw@));
        return out;
    }
    let mut start: usize = 0;
    let mut i: usize = 0;
    assert(raw@.take(0) =~= Seq::<char>::empty());
    assert(texts(out@) =~= Seq::<Seq<char>>::empty());
    assert(texts(out@).push(raw@.subrange(0, 0)) =~= split_commas(raw@.take(0)));
    while i < n
        invariant
            start <= i <= n,
            n == raw@.len(),
            texts(out@).push(raw@.subrange(start as int, i as int)) == split_commas(raw@.take(i as int)),
        decreases n - i,
    {
        let c = raw.get_char(i);
        proof {
            lemma_split_nonempty(raw@.take(i as int));
            assert(raw@.take(i + 1).drop_last() =~= raw@.take(i as int));
            assert(raw@.take(i + 1).last() == c);
        }
        if c == ',' {
            let piece = raw.substring_char(start, i).to_owned();
            proof {
                assert(texts(out@.push(piece)) =~= texts(out@).push(piece@));
            }
            out.push(piece);
            start = i + 1;
            proof {
                assert(raw@.subrange(start as int, start as int) =~= Seq::<char>::empty());
            }
        } else {
            proof {
                let prev = split_commas(raw@.take(i as int));
                assert(raw@.subrange(start as int, i + 1) =~= raw@.subrange(start as int, i as int).push(c));
                assert(texts(out@).push(raw@.subrange(start as int, i + 1)) =~= prev.update(
                    prev.len() - 1,
                    prev.last().push(c),
                ));
            }
        }
        i = i + 1;
    }
    let last = raw.substring_char(start, n).to_owned();
    proof {
        assert(texts(out@.push(last)) =~= texts(out@).push(last@));
        assert(raw@.take(n as int) =~= raw@);
    }
    out.push(last);
    out
}

} // verus!
