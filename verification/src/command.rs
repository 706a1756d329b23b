//! The options of the dump commands, and how they choose the columns.

use crate::btrfs::{BtrfsModelFieldId, BtrfsOptionField};
use crate::cgroup::{CgroupOptionField, SingleCgroupModelFieldId};
use crate::disk::{DiskOptionField, SingleDiskModelFieldId};
use crate::error::DumpError;
use crate::expand::{expand_fields, spec_expand_fields};
use crate::field::{AggField, DumpField, DumpOptionField, FieldId};
use crate::iface::{IfaceOptionField, SingleNetModelFieldId};
use crate::network::{NetworkOptionField, TransportOptionField};
use crate::process::{ProcessOptionField, SingleProcessModelFieldId};
use crate::system::SystemOptionField;
use crate::text::{same_text, to_lowercase, unicode_lowercase};
use regex::Regex;
use vstd::prelude::*;

verus! {

/// A compiled regular expression of the `regex` crate.
#[verifier::external_type_specification]
#[verifier::external_body]
pub struct ExRegex(regex::Regex);

/// Why the `regex` crate refused a pattern.
#[verifier::external_type_specification]
#[verifier::external_body]
pub struct ExRegexError(regex::Error);

/// Whether the `regex` crate compiles `pattern` with its default settings.
pub uninterp spec fn is_regex(pattern: Seq<char>) -> bool;

/// `Regex::new`: compiles a pattern with the default settings of the crate.
/// It succeeds on the patterns that `is_regex` names and on no others.
#[verifier::external_body]
fn compile(pattern: &str) -> (r: Result<Regex, regex::Error>)
    ensures
        r is Ok <==> is_regex(pattern@),
{
    Regex::new(pattern)
}

/// `to_string` of a `regex::Error`: the text that the crate shows for a
/// pattern it refused. Nothing is claimed of that text.
#[verifier::external_body]
fn explain(error: &regex::Error) -> String {
    error.to_string()
}

/// Compiles the filter that the user gave. It is rejected here, before any
/// data is read, when it is not a regular expression.
pub fn parse_filter(pattern: &str) -> (r: Result<Regex, DumpError>)
    ensures
        r is Ok <==> is_regex(pattern@),
        r matches Err(error) ==> error is InvalidFilter,
{
    match compile(pattern) {
        Ok(filter) => Ok(filter),
        Err(error) => Err(DumpError::InvalidFilter(explain(&error))),
    }
}

/// The options that all dump commands share.
#[derive(Clone, Debug)]
pub struct GeneralOpt {
    /// Show all top layer fields. Overrides any explicit selection.
    pub default: bool,
    /// Show all fields. Overrides an explicit selection and `default`.
    pub everything: bool,
    /// Show more information than the default.
    pub detail: bool,
    /// Begin time.
    pub begin: String,
    /// End time.
    pub end: Option<String>,
    /// How long a time to show, in place of an end time.
    pub duration: Option<String>,
    /// Applied to the value of the selected field to admit or reject rows.
    pub filter: Option<Regex>,
    /// Sort rows from lower to higher by the selected field.
    pub sort: bool,
    /// Sort rows from higher to lower by the selected field.
    pub rsort: bool,
    /// Show only the first rows of each time slice; 0 shows all.
    pub top: u32,
    /// Repeat the title after this many lines.
    pub repeat_title: Option<usize>,
    /// Output format; raw when not given.
    pub output_format: Option<OutputFormat>,
    /// Output destination; standard output when not given.
    pub output: Option<String>,
    /// Leave out the title.
    pub disable_title: bool,
    /// Days to go back from today.
    pub yesterdays: Option<String>,
    /// Line break symbol between samples.
    pub br: Option<String>,
    /// Show raw data without units or conversion.
    pub raw: bool,
}

impl Default for GeneralOpt {
    /// No flag is set and no option is given.
    fn default() -> (r: Self)
        ensures
            !r.default && !r.everything && !r.detail,
            r.begin@.len() == 0,
            r.end is None && r.duration is None && r.filter is None,
            !r.sort && !r.rsort && r.top == 0,
            r.repeat_title is None && r.output_format is None && r.output is None,
            !r.disable_title && r.yesterdays is None && r.br is None && !r.raw,
    {
        GeneralOpt {
            default: false,
            everything: false,
            detail: false,
            begin: String::new(),
            end: None,
            duration: None,
            filter: None,
            sort: false,
            rsort: false,
            top: 0,
            repeat_title: None,
            output_format: None,
            output: None,
            disable_title: false,
            yesterdays: None,
            br: None,
            raw: false,
        }
    }
}

impl GeneralOpt {
    /// Whether the default selection of the domain is shown in place of an
    /// explicit one.
    pub open spec fn spec_shows_default(&self) -> bool {
        self.everything || self.default
    }

    /// Whether groups stand for their full selection.
    pub open spec fn spec_shows_detail(&self) -> bool {
        self.everything || self.detail
    }
}

/// The columns that a command shows. The default selection of the domain is
/// taken when no selection is given, and when `default` or `everything`
/// overrides the one given; groups stand for their full selection under
/// `detail` and under `everything`.
pub open spec fn spec_selected_fields<F: FieldId, A: AggField<F>>(
    opts: GeneralOpt,
    fields: Option<Vec<DumpOptionField<F, A>>>,
    defaults: Seq<DumpOptionField<F, A>>,
) -> Seq<DumpField<F>> {
    match fields {
        Some(chosen) if !opts.spec_shows_default() => spec_expand_fields(
            chosen@,
            opts.spec_shows_detail(),
        ),
        _ => spec_expand_fields(defaults, opts.spec_shows_detail()),
    }
}

/// Chooses the selection that a command shows and expands it to columns.
pub fn selected_fields<F: FieldId, A: AggField<F>>(
    opts: &GeneralOpt,
    fields: &Option<Vec<DumpOptionField<F, A>>>,
    defaults: &[DumpOptionField<F, A>],
) -> (r: Vec<DumpField<F>>)
    ensures
        r@ == spec_selected_fields(*opts, *fields, defaults@),
{
    let default = opts.everything || opts.default;
    let detail = opts.everything || opts.detail;
    match fields {
        Some(chosen) => {
            if !default {
                expand_fields(chosen.as_slice(), detail)
            } else {
                expand_fields(defaults, detail)
            }
        },
        None => expand_fields(defaults, detail),
    }
}

/// How the rows are written.
#[derive(Clone, Copy, Debug, PartialEq, Eq, Hash, Structural)]
pub enum OutputFormat {
    Raw,
    Csv,
    Tsv,
    Json,
    KeyVal,
    OpenMetrics,
}

impl OutputFormat {
    /// The format that a lower-case name stands for.
    pub open spec fn spec_from_name(name: Seq<char>) -> Option<Self> {
        if name == "raw"@ {
            Some(OutputFormat::Raw)
        } else if name == "csv"@ {
            Some(OutputFormat::Csv)
        } else if name == "tsv"@ {
            Some(OutputFormat::Tsv)
        } else if name == "json"@ {
            Some(OutputFormat::Json)
        } else if name == "kv"@ {
            Some(OutputFormat::KeyVal)
        } else if name == "openmetrics"@ {
            Some(OutputFormat::OpenMetrics)
        } else {
            None
        }
    }

    /// Resolves the name of a format, which is taken as it is written.
    pub fn from_name(name: &str) -> (r: Option<Self>)
        ensures
            r == Self::spec_from_name(name@),
    {
        if same_text(name, "raw") {
            Some(OutputFormat::Raw)
        } else if same_text(name, "csv") {
            Some(OutputFormat::Csv)
        } else if same_text(name, "tsv") {
            Some(OutputFormat::Tsv)
        } else if same_text(name, "json") {
            Some(OutputFormat::Json)
        } else if same_text(name, "kv") {
            Some(OutputFormat::KeyVal)
        } else if same_text(name, "openmetrics") {
            Some(OutputFormat::OpenMetrics)
        } else {
            None
        }
    }

    /// Resolves the name of a format in any letter case: the name is put in
    /// lower case by the rules of Unicode and then resolved.
    pub fn from_str(opt: &str) -> (r: Result<Self, DumpError>)
        ensures
            match r {
                Ok(format) => Self::spec_from_name(unicode_lowercase(opt@)) == Some(format),
                Err(error) => {
                    &&& Self::spec_from_name(unicode_lowercase(opt@)) is None
                    &&& error matches DumpError::UnknownOutputFormat(text)
                    &&& text@ == opt@
                },
            },
    {
        let lowered = to_lowercase(opt);
        match Self::from_name(lowered.as_str()) {
            Some(format) => Ok(format),
            None => Err(DumpError::UnknownOutputFormat(opt.to_owned())),
        }
    }
}

/// One dump command for each domain, with what the user asked of it.
#[derive(Clone, Debug)]
#[allow(inconsistent_fields)]
pub enum DumpCommand {
    System {
        /// Which fields to show and in what order.
        fields: Option<Vec<SystemOptionField>>,
        opts: GeneralOpt,
        /// The name of a saved selection.
        pattern: Option<String>,
    },
    Disk {
        fields: Option<Vec<DiskOptionField>>,
        opts: GeneralOpt,
        /// The field that sorting, filtering and `top` go by.
        select: Option<SingleDiskModelFieldId>,
        pattern: Option<String>,
    },
    Btrfs {
        fields: Option<Vec<BtrfsOptionField>>,
        opts: GeneralOpt,
        select: Option<BtrfsModelFieldId>,
        pattern: Option<String>,
    },
    Process {
        fields: Option<Vec<ProcessOptionField>>,
        opts: GeneralOpt,
        select: Option<SingleProcessModelFieldId>,
        pattern: Option<String>,
    },
    Cgroup {
        fields: Option<Vec<CgroupOptionField>>,
        opts: GeneralOpt,
        select: Option<SingleCgroupModelFieldId>,
        pattern: Option<String>,
    },
    Iface {
        fields: Option<Vec<IfaceOptionField>>,
        opts: GeneralOpt,
        select: Option<SingleNetModelFieldId>,
        pattern: Option<String>,
    },
    Network {
        fields: Option<Vec<NetworkOptionField>>,
        opts: GeneralOpt,
        pattern: Option<String>,
    },
    Transport {
        fields: Option<Vec<TransportOptionField>>,
        opts: GeneralOpt,
        pattern: Option<String>,
    },
}

impl DumpCommand {
    /// Whether the command holds an explicit selection.
    pub open spec fn spec_has_fields(&self) -> bool {
        match self {
            DumpCommand::System { fields, .. } => fields is Some,
            DumpCommand::Disk { fields, .. } => fields is Some,
            DumpCommand::Btrfs { fields, .. } => fields is Some,
            DumpCommand::Process { fields, .. } => fields is Some,
            DumpCommand::Cgroup { fields, .. } => fields is Some,
            DumpCommand::Iface { fields, .. } => fields is Some,
            DumpCommand::Network { fields, .. } => fields is Some,
            DumpCommand::Transport { fields, .. } => fields is Some,
        }
    }

    /// Whether the command names a saved selection.
    pub open spec fn spec_has_pattern(&self) -> bool {
        match self {
            DumpCommand::System { pattern, .. } => pattern is Some,
            DumpCommand::Disk { pattern, .. } => pattern is Some,
            DumpCommand::Btrfs { pattern, .. } => pattern is Some,
            DumpCommand::Process { pattern, .. } => pattern is Some,
            DumpCommand::Cgroup { pattern, .. } => pattern is Some,
            DumpCommand::Iface { pattern, .. } => pattern is Some,
            DumpCommand::Network { pattern, .. } => pattern is Some,
            DumpCommand::Transport { pattern, .. } => pattern is Some,
        }
    }

    /// Rejects a command that holds both an explicit selection and the name
    /// of a saved one, and accepts every other.
    pub fn check(&self) -> (r: Result<(), DumpError>)
        ensures
            r is Err <==> self.spec_has_fields() && self.spec_has_pattern(),
            r matches Err(error) ==> error is FieldsWithPattern,
    {
        let both = match self {
            DumpCommand::System { fields, pattern, .. } => fields.is_some() && pattern.is_some(),
            DumpCommand::Disk { fields, pattern, .. } => fields.is_some() && pattern.is_some(),
            DumpCommand::Btrfs { fields, pattern, .. } => fields.is_some() && pattern.is_some(),
            DumpCommand::Process { fields, pattern, .. } => fields.is_some() && pattern.is_some(),
            DumpCommand::Cgroup { fields, pattern, .. } => fields.is_some() && pattern.is_some(),
            DumpCommand::Iface { fields, pattern, .. } => fields.is_some() && pattern.is_some(),
            DumpCommand::Network { fields, pattern, .. } => fields.is_some() && pattern.is_some(),
            DumpCommand::Transport { fields, pattern, .. } => fields.is_some()
                && pattern.is_some(),
        };
        if both {
            Err(DumpError::FieldsWithPattern)
        } else {
            Ok(())
        }
    }
}

} // verus!
