use vstd::prelude::*;

use crate::decimal::decimal_spec;
use crate::outside::{license_accepts, parse_url, url_accepts};
use crate::schema::{
    choose_raw, chosen_raw, first_present, list_spec, parse_list, parse_visibility, texts, visibility_spec, Field,
    RawSource, Visibility,
};
use crate::sentinel::{
    empty_bool_spec, option_u64_spec, parse_empty_bool, parse_option_path, parse_option_spdx,
    parse_option_string, parse_option_u64, sentinel_text, OptionPathBuf, OptionSpdxExpression,
    OptionString, OptionU64, ValidationError,
};

verus! {

/// The host used when neither the flag nor its variable is given.
pub const DEFAULT_HOST: &'static str = "https://api.flakehub.com";

pub open spec fn default_host() -> Seq<char> {
    "https://api.flakehub.com"@
}

/// The fully typed configuration that the publishing steps read.
#[derive(Debug)]
pub struct FlakeHubPushCli {
    pub host: url::Url,
    pub visibility: Option<Visibility>,
    pub tag: OptionString,
    pub rolling_minor: OptionU64,
    pub rolling: bool,
    pub github_token: OptionString,
    pub name: OptionString,
    pub repository: OptionString,
    pub directory: OptionPathBuf,
    pub git_root: OptionPathBuf,
    pub mirror: bool,
    pub jwt_issuer_uri: OptionString,
    pub extra_labels: Vec<String>,
    pub extra_tags: Vec<String>,
    pub spdx_expression: OptionSpdxExpression,
    pub error_on_conflict: bool,
    pub include_output_paths: bool,
}

/// The raw text of every field, as the command line and the environment
/// gave it. `mirror` is a plain switch, already decided.
#[derive(Clone, Debug)]
pub struct RawInputs {
    pub host: RawSource,
    pub visibility: RawSource,
    pub tag: RawSource,
    pub rolling_minor: RawSource,
    pub rolling: RawSource,
    pub github_token: RawSource,
    pub name: RawSource,
    pub repository: RawSource,
    pub directory: RawSource,
    pub git_root: RawSource,
    pub mirror: bool,
    pub jwt_issuer_uri: RawSource,
    pub extra_labels: RawSource,
    pub extra_tags: RawSource,
    pub spdx_expression: RawSource,
    pub error_on_conflict: RawSource,
    pub include_output_paths: RawSource,
}

/// A usage error: the field whose raw text was rejected, and why.
#[derive(Clone, Debug, PartialEq, Eq)]
pub struct ConfigError {
    pub field: Field,
    pub error: ValidationError,
}

/// The winning raw text of a field whose default is the empty text.
pub open spec fn raw(src: RawSource) -> Seq<char> {
    chosen_raw(src, Seq::empty())
}

/// Whether a license field's raw text is acceptable.
pub open spec fn license_ok(raw: Seq<char>) -> bool {
    raw.len() == 0 || license_accepts(raw)
}

/// The first field, in declaration order, whose raw text its parser rejects.
pub open spec fn first_invalid(i: RawInputs) -> Option<Field> {
    if !url_accepts(chosen_raw(i.host, default_host())) {
        Some(Field::Host)
    } else if visibility_spec(raw(i.visibility)) is None {
        Some(Field::Visibility)
    } else if option_u64_spec(raw(i.rolling_minor)) is Err {
        Some(Field::RollingMinor)
    } else if empty_bool_spec(raw(i.rolling)) is None {
        Some(Field::Rolling)
    } else if !license_ok(raw(i.spdx_expression)) {
        Some(Field::SpdxExpression)
    } else if empty_bool_spec(raw(i.error_on_conflict)) is None {
        Some(Field::ErrorOnConflict)
    } else if empty_bool_spec(raw(i.include_output_paths)) is None {
        Some(Field::IncludeOutputPaths)
    } else {
        None
    }
}

/// The error reported for a rejected field names its raw text, or carries
/// its parser's reason.
pub open spec fn error_fits(i: RawInputs, e: ConfigError) -> bool {
    match e.field {
        Field::Host => e.error is InvalidUrl,
        Field::Visibility => e.error matches ValidationError::InvalidVisibility(t) && t@ == raw(
            i.visibility,
        ),
        Field::RollingMinor => Err::<OptionU64, ValidationError>(e.error) == option_u64_spec(raw(i.rolling_minor)),
        Field::Rolling => e.error matches ValidationError::InvalidBool(t) && t@ == raw(i.rolling),
        Field::SpdxExpression => e.error is InvalidLicense,
        Field::ErrorOnConflict => e.error matches ValidationError::InvalidBool(t) && t@ == raw(
            i.error_on_conflict,
        ),
        Field::IncludeOutputPaths => e.error matches ValidationError::InvalidBool(t) && t@ == raw(
            i.include_output_paths,
        ),
        _ => false,
    }
}

/// Every field of `c` holds what its raw text denotes.
pub open spec fn resolved_from(c: FlakeHubPushCli, i: RawInputs) -> bool {
    &&& Some(c.visibility) == visibility_spec(raw(i.visibility))
    &&& c.tag@ == sentinel_text(raw(i.tag))
    &&& Ok::<OptionU64, ValidationError>(c.rolling_minor) == option_u64_spec(raw(i.rolling_minor))
    &&& Some(c.rolling) == empty_bool_spec(raw(i.rolling))
    &&& c.github_token@ == sentinel_text(raw(i.github_token))
    &&& c.name@ == sentinel_text(raw(i.name))
    &&& c.repository@ == sentinel_text(raw(i.repository))
    &&& c.directory@ == sentinel_text(raw(i.directory))
    &&& c.git_root@ == sentinel_text(raw(i.git_root))
    &&& c.mirror == i.mirror
    &&& c.jwt_issuer_uri@ == sentinel_text(raw(i.jwt_issuer_uri))
    &&& texts(c.extra_labels@) == list_spec(raw(i.extra_labels))
    &&& texts(c.extra_tags@) == list_spec(raw(i.extra_tags))
    &&& (c.spdx_expression.0 is None <==> raw(i.spdx_expression).len() == 0)
    &&& Some(c.error_on_conflict) == empty_bool_spec(raw(i.error_on_conflict))
    &&& Some(c.include_output_paths) == empty_bool_spec(raw(i.include_output_paths))
}

/// Turns the raw text of every field into the typed configuration. The
/// first field, in declaration order, whose text is rejected ends the work
/// with a usage error; no configuration is produced then.
pub fn resolve(i: &RawInputs) -> (r: Result<FlakeHubPushCli, ConfigError>)
    ensures
        r is Ok <==> first_invalid(*i) is None,
        r matches Ok(c) ==> resolved_from(c, *i),
        r matches Err(e) ==> Some(e.field) == first_invalid(*i) && error_fits(*i, e),
{
    proof {
        reveal_strlit("");
        reveal_strlit("https://api.flakehub.com");
    }
    let host_raw = choose_raw(&i.host, DEFAULT_HOST);
    let host = match parse_url(host_raw.as_str()) {
        Ok(u) => u,
        Err(m) => {
            return Err(ConfigError { field: Field::Host, error: ValidationError::InvalidUrl(m) });
        },
    };
    let visibility = match parse_visibility(choose_raw(&i.visibility, "").as_str()) {
        Ok(v) => v,
        Err(e) => {
            return Err(ConfigError { field: Field::Visibility, error: e });
        },
    };
    let rolling_minor = match parse_option_u64(choose_raw(&i.rolling_minor, "").as_str()) {
        Ok(v) => v,
        Err(e) => {
            return Err(ConfigError { field: Field::RollingMinor, error: e });
        },
    };
    let rolling = match parse_empty_bool(choose_raw(&i.rolling, "").as_str()) {
        Ok(v) => v,
        Err(e) => {
            return Err(ConfigError { field: Field::Rolling, error: e });
        },
    };
    let spdx_expression = match parse_option_spdx(choose_raw(&i.spdx_expression, "").as_str()) {
        Ok(v) => v,
        Err(e) => {
            return Err(ConfigError { field: Field::SpdxExpression, error: e });
        },
    };
    let error_on_conflict = match parse_empty_bool(choose_raw(&i.error_on_conflict, "").as_str()) {
        Ok(v) => v,
        Err(e) => {
            return Err(ConfigError { field: Field::ErrorOnConflict, error: e });
        },
    };
    let include_output_paths = match parse_empty_bool(
        choose_raw(&i.include_output_paths, "").as_str(),
    ) {
        Ok(v) => v,
        Err(e) => {
            return Err(ConfigError { field: Field::IncludeOutputPaths, error: e });
        },
    };
    Ok(
        FlakeHubPushCli {
            host,
            visibility,
            tag: parse_option_string(choose_raw(&i.tag, "").as_str()),
            rolling_minor,
            rolling,
            github_token: parse_option_string(choose_raw(&i.github_token, "").as_str()),
            name: parse_option_string(choose_raw(&i.name, "").as_str()),
            repository: parse_option_string(choose_raw(&i.repository, "").as_str()),
            directory: parse_option_path(choose_raw(&i.directory, "").as_str()),
            git_root: parse_option_path(choose_raw(&i.git_root, "").as_str()),
            mirror: i.mirror,
            jwt_issuer_uri: parse_option_string(choose_raw(&i.jwt_issuer_uri, "").as_str()),
            extra_labels: parse_list(choose_raw(&i.extra_labels, "").as_str()),
            extra_tags: parse_list(choose_raw(&i.extra_tags, "").as_str()),
            spdx_expression,
            error_on_conflict,
            include_output_paths,
        },
    )
}

/// The legacy, misspelled visibility variable stands for the current one:
/// with no flag, setting only the one or only the other to the same text
/// gives the same visibility, or the same rejection.
pub proof fn legacy_visibility_binding(current_only: RawSource, legacy_only: RawSource, v: String)
    requires
        current_only.flag is None,
        legacy_only.flag is None,
        current_only.env@ == seq![Some(v), None::<String>],
        legacy_only.env@ == seq![None::<String>, Some(v)],
    ensures
        raw(current_only) == raw(legacy_only),
        visibility_spec(raw(current_only)) == visibility_spec(raw(legacy_only)),
{
    assert(legacy_only.env@.drop_first() =~= seq![Some(v)]);
    assert(first_present(legacy_only.env@.drop_first()) == Some(v));
}

/// A rolling-minor value that is not an unsigned decimal number is a usage
/// error: no configuration is produced from such inputs.
pub proof fn malformed_rolling_minor_rejected(i: RawInputs)
    requires
        raw(i.rolling_minor).len() > 0,
        decimal_spec(raw(i.rolling_minor)) is Err,
    ensures
        first_invalid(i) is Some,
{
}

} // verus!
