//! The code-measure check: walks the space tree the metrics engine reports
//! for each source file, flattens it into per-unit records, flags the records
//! against the configured size and complexity thresholds, and scores the
//! tallies.

use vstd::prelude::*;

use crate::config;
use crate::result;
use crate::scoring::{
    penalty_add, penalty_mul, raw_score, normalized_score, spec_raw_score, spec_normalized_score,
    lemma_clamp_add, lemma_clamped_penalty_same_score, SCORE_INPUT_MAX,
};
use crate::text::str_eq;

verus! {

/// The kind of code space a record describes.
#[derive(Clone, Copy, Debug, PartialEq, Eq, Structural)]
pub enum FuncKind {
    /// An unknown space
    Unknown,
    /// A function space
    Function,
    /// A class space
    Class,
    /// A struct space
    Struct,
    /// A `Rust` trait space
    Trait,
    /// A `Rust` implementation space
    Impl,
    /// A general space: one whole compilation unit
    Unit,
    /// A `C/C++` namespace
    Namespace,
    /// An interface
    Interface,
}

impl DeepView for FuncKind {
    type V = FuncKind;

    open spec fn deep_view(&self) -> FuncKind {
        *self
    }
}

/// The lower-case name of each space kind.
pub open spec fn spec_kind_name(k: FuncKind) -> Seq<char> {
    match k {
        FuncKind::Unknown => "unknown"@,
        FuncKind::Function => "function"@,
        FuncKind::Class => "class"@,
        FuncKind::Struct => "struct"@,
        FuncKind::Trait => "trait"@,
        FuncKind::Impl => "impl"@,
        FuncKind::Unit => "unit"@,
        FuncKind::Namespace => "namespace"@,
        FuncKind::Interface => "interface"@,
    }
}

/// The name of a space kind, executable form.
pub fn get_space_kind_name(s: &FuncKind) -> (r: &'static str)
    ensures
        r@ == spec_kind_name(*s),
{
    match s {
        FuncKind::Unknown => "unknown",
        FuncKind::Function => "function",
        FuncKind::Class => "class",
        FuncKind::Struct => "struct",
        FuncKind::Trait => "trait",
        FuncKind::Impl => "impl",
        FuncKind::Unit => "unit",
        FuncKind::Namespace => "namespace",
        FuncKind::Interface => "interface",
    }
}

/// One flattened record: a function or a whole compilation unit, with its
/// span, complexities, and the threshold flags the classification sets.
#[derive(Debug)]
pub struct FuncInfo {
    pub name: String,
    pub path: String,
    pub start_line: usize,
    pub end_line: usize,
    pub if_large_file: bool,
    pub if_large_function: bool,
    pub kind: FuncKind,
    pub cognitive: usize,
    pub if_large_cognitive: bool,
    pub cyclomatic: usize,
    pub if_large_cyclomatic: bool,
}

/// Mathematical model of [`FuncInfo`].
#[verifier::ext_equal]
pub struct FuncInfoV {
    pub name: Seq<char>,
    pub path: Seq<char>,
    pub start_line: usize,
    pub end_line: usize,
    pub if_large_file: bool,
    pub if_large_function: bool,
    pub kind: FuncKind,
    pub cognitive: usize,
    pub if_large_cognitive: bool,
    pub cyclomatic: usize,
    pub if_large_cyclomatic: bool,
}

impl DeepView for FuncInfo {
    type V = FuncInfoV;

    open spec fn deep_view(&self) -> FuncInfoV {
        FuncInfoV {
            name: self.name@,
            path: self.path@,
            start_line: self.start_line,
            end_line: self.end_line,
            if_large_file: self.if_large_file,
            if_large_function: self.if_large_function,
            kind: self.kind,
            cognitive: self.cognitive,
            if_large_cognitive: self.if_large_cognitive,
            cyclomatic: self.cyclomatic,
            if_large_cyclomatic: self.if_large_cyclomatic,
        }
    }
}

impl Clone for FuncInfo {
    fn clone(&self) -> (res: Self)
        ensures
            res == *self,
    {
        FuncInfo {
            name: self.name.clone(),
            path: self.path.clone(),
            start_line: self.start_line,
            end_line: self.end_line,
            if_large_file: self.if_large_file,
            if_large_function: self.if_large_function,
            kind: self.kind,
            cognitive: self.cognitive,
            if_large_cognitive: self.if_large_cognitive,
            cyclomatic: self.cyclomatic,
            if_large_cyclomatic: self.if_large_cyclomatic,
        }
    }
}

/// One node of the space tree the metrics engine reports for a source file.
#[derive(Debug)]
pub struct SpaceNode {
    pub name: Option<String>,
    pub kind: FuncKind,
    pub start_line: usize,
    pub end_line: usize,
    pub cognitive: usize,
    pub cyclomatic: usize,
    pub spaces: Vec<SpaceNode>,
}

/// The name a nested space contributes to its children's path, with the
/// fallback used when the engine reported none.
pub open spec fn spec_name_or_default(name: Option<String>) -> Seq<char> {
    match name {
        Option::Some(n) => n@,
        Option::None => "parse_func_name_failed"@,
    }
}

/// The path handed to the children of `f` when `f` itself was reached
/// through `path`.
pub open spec fn spec_child_path(path: Seq<char>, f: SpaceNode) -> Seq<char> {
    if path.len() == 0 {
        match f.name {
            Option::Some(n) => n@,
            Option::None => Seq::empty(),
        }
    } else {
        path + "&&&Name:"@ + spec_name_or_default(f.name) + "&&&Kind:"@ + spec_kind_name(f.kind)
    }
}

/// The inputs on which the flattening is defined: a root without a name
/// contributes no path to its children.
pub open spec fn spec_save_safe(path: Seq<char>, f: SpaceNode) -> bool
    decreases f, f.spaces@.len() + 1,
{
    &&& (f.spaces@.len() > 0 && path.len() == 0 ==> f.name is Some)
    &&& spec_save_safe_children(path, f, 0)
}

pub open spec fn spec_save_safe_children(path: Seq<char>, f: SpaceNode, i: int) -> bool
    decreases f, f.spaces@.len() - i,
{
    if 0 <= i < f.spaces@.len() {
        &&& spec_save_safe(spec_child_path(path, f), f.spaces@[i])
        &&& spec_save_safe_children(path, f, i + 1)
    } else {
        true
    }
}

/// The records node `f` itself contributes: one for a whole compilation
/// unit, one for a function, none otherwise.
pub open spec fn spec_own_records(path: Seq<char>, f: SpaceNode) -> Seq<FuncInfoV> {
    if f.kind == FuncKind::Unit && f.name is Some {
        seq![
            FuncInfoV {
                name: spec_name_or_default(f.name),
                path: spec_name_or_default(f.name),
                start_line: f.start_line,
                end_line: f.end_line,
                if_large_file: false,
                if_large_function: false,
                kind: FuncKind::Unit,
                cognitive: 0,
                if_large_cognitive: false,
                cyclomatic: 0,
                if_large_cyclomatic: false,
            },
        ]
    } else if f.kind == FuncKind::Function && f.name is Some {
        seq![
            FuncInfoV {
                name: spec_name_or_default(f.name),
                path: path + "&&&FuncName:"@ + spec_name_or_default(f.name) + "&&&Kind:"@
                    + spec_kind_name(f.kind),
                start_line: f.start_line,
                end_line: f.end_line,
                if_large_file: false,
                if_large_function: false,
                kind: FuncKind::Function,
                cognitive: f.cognitive,
                if_large_cognitive: false,
                cyclomatic: f.cyclomatic,
                if_large_cyclomatic: false,
            },
        ]
    } else {
        Seq::empty()
    }
}

/// The flattening of the whole tree under `f`, in depth-first order.
pub open spec fn spec_flatten(path: Seq<char>, f: SpaceNode) -> Seq<FuncInfoV>
    decreases f, f.spaces@.len() + 1,
{
    spec_own_records(path, f) + spec_flatten_children(path, f, 0)
}

pub open spec fn spec_flatten_children(path: Seq<char>, f: SpaceNode, i: int) -> Seq<FuncInfoV>
    decreases f, f.spaces@.len() - i,
{
    if 0 <= i < f.spaces@.len() {
        spec_flatten(spec_child_path(path, f), f.spaces@[i]) + spec_flatten_children(path, f, i + 1)
    } else {
        Seq::empty()
    }
}

/// Flatten the space tree under `f` into `out`, depth first: a record for
/// every named compilation unit and every named function, each function's
/// path prefixed with the chain of spaces it sits in.
pub fn save_funcspace(path: String, f: &SpaceNode, out: &mut Vec<FuncInfo>)
    requires
        spec_save_safe(path@, *f),
    ensures
        final(out).deep_view() == old(out).deep_view() + spec_flatten(path@, *f),
    decreases *f,
{
    let ghost out0 = old(out).deep_view();
    match (&f.kind, &f.name) {
        (FuncKind::Unit, Some(n)) => {
            let rec = FuncInfo {
                path: n.clone(),
                name: n.clone(),
                start_line: f.start_line,
                end_line: f.end_line,
                if_large_file: false,
                if_large_function: false,
                kind: FuncKind::Unit,
                cognitive: 0,
                if_large_cognitive: false,
                cyclomatic: 0,
                if_large_cyclomatic: false,
            };
            out.push(rec);
        },
        (FuncKind::Function, Some(n)) => {
            let rec = FuncInfo {
                path: path.clone().concat("&&&FuncName:").concat(n.as_str()).concat(
                    "&&&Kind:",
                ).concat(get_space_kind_name(&f.kind)),
                name: n.clone(),
                start_line: f.start_line,
                end_line: f.end_line,
                if_large_file: false,
                if_large_function: false,
                kind: FuncKind::Function,
                cognitive: f.cognitive,
                if_large_cognitive: false,
                cyclomatic: f.cyclomatic,
                if_large_cyclomatic: false,
            };
            out.push(rec);
        },
        _ => {},
    }
    proof {
        assert(out.deep_view() =~= out0 + spec_own_records(path@, *f));
    }
    if f.spaces.len() > 0 {
        let p: String = if path.as_str().is_empty() {
            match &f.name {
                Some(n) => n.clone(),
                None => {
                    proof {
                        assert(false);
                    }
                    String::new()
                },
            }
        } else {
            path.clone().concat("&&&Name:").concat(name_or_default(&f.name)).concat(
                "&&&Kind:",
            ).concat(get_space_kind_name(&f.kind))
        };
        proof {
            assert(p@ == spec_child_path(path@, *f));
        }
        let mut i: usize = 0;
        while i < f.spaces.len()
            invariant
                0 <= i <= f.spaces@.len(),
                p@ == spec_child_path(path@, *f),
                spec_save_safe_children(path@, *f, 0),
                out.deep_view() == out0 + spec_own_records(path@, *f) + spec_flatten_upto(
                    path@,
                    *f,
                    i as int,
                ),
            decreases f.spaces@.len() - i,
        {
            proof {
                lemma_save_safe_children_at(path@, *f, i as int);
            }
            save_funcspace(p.clone(), &f.spaces[i], out);
            proof {
                lemma_flatten_upto_step(path@, *f, i as int);
                assert(out.deep_view() =~= out0 + spec_own_records(path@, *f) + spec_flatten_upto(
                    path@,
                    *f,
                    i + 1,
                ));
            }
            i += 1;
        }
        proof {
            lemma_flatten_upto_full(path@, *f);
            assert(out.deep_view() =~= out0 + spec_flatten(path@, *f));
        }
    } else {
        proof {
            assert(spec_flatten_children(path@, *f, 0) =~= Seq::<FuncInfoV>::empty());
            assert(out.deep_view() =~= out0 + spec_flatten(path@, *f));
        }
    }
}

/// The records the first `i` children contribute.
pub open spec fn spec_flatten_upto(path: Seq<char>, f: SpaceNode, i: int) -> Seq<FuncInfoV>
    decreases i,
{
    if i <= 0 {
        Seq::empty()
    } else {
        spec_flatten_upto(path, f, i - 1) + spec_flatten(spec_child_path(path, f), f.spaces@[i - 1])
    }
}

proof fn lemma_save_safe_children_at(path: Seq<char>, f: SpaceNode, i: int)
    requires
        spec_save_safe_children(path, f, 0),
        0 <= i < f.spaces@.len(),
    ensures
        spec_save_safe(spec_child_path(path, f), f.spaces@[i]),
{
    lemma_save_safe_children_range(path, f, 0, i);
}

proof fn lemma_save_safe_children_range(path: Seq<char>, f: SpaceNode, j: int, i: int)
    requires
        spec_save_safe_children(path, f, j),
        0 <= j <= i < f.spaces@.len(),
    ensures
        spec_save_safe(spec_child_path(path, f), f.spaces@[i]),
    decreases i - j,
{
    if j < i {
        lemma_save_safe_children_range(path, f, j + 1, i);
    }
}

proof fn lemma_flatten_upto_step(path: Seq<char>, f: SpaceNode, i: int)
    requires
        0 <= i < f.spaces@.len(),
    ensures
        spec_flatten_upto(path, f, i + 1) == spec_flatten_upto(path, f, i) + spec_flatten(
            spec_child_path(path, f),
            f.spaces@[i],
        ),
{
}

proof fn lemma_flatten_upto_full(path: Seq<char>, f: SpaceNode)
    ensures
        spec_own_records(path, f) + spec_flatten_upto(path, f, f.spaces@.len() as int)
            == spec_flatten(path, f),
{
    lemma_flatten_suffix_eq(path, f, f.spaces@.len() as int);
    assert(spec_own_records(path, f) + spec_flatten_upto(path, f, f.spaces@.len() as int) =~= spec_flatten(
        path,
        f,
    ));
}

/// The first `i` children followed by the rest give all the children.
proof fn lemma_flatten_suffix_eq(path: Seq<char>, f: SpaceNode, i: int)
    requires
        0 <= i <= f.spaces@.len(),
    ensures
        spec_flatten_upto(path, f, i) + spec_flatten_children(path, f, i)
            == spec_flatten_children(path, f, 0),
    decreases i,
{
    if i == 0 {
        assert(spec_flatten_upto(path, f, 0) + spec_flatten_children(path, f, 0)
            =~= spec_flatten_children(path, f, 0));
    } else {
        lemma_flatten_suffix_eq(path, f, i - 1);
        assert(spec_flatten_upto(path, f, i) + spec_flatten_children(path, f, i)
            =~= spec_flatten_upto(path, f, i - 1) + spec_flatten_children(path, f, i - 1));
    }
}

/// The fallback name, executable form.
fn name_or_default(name: &Option<String>) -> (r: &str)
    ensures
        r@ == spec_name_or_default(*name),
{
    match name {
        Some(n) => n.as_str(),
        None => "parse_func_name_failed",
    }
}

/// The serialization formats the structured result artifacts can take.
#[derive(Debug, Clone)]
pub enum Format {
    Cbor,
    Json,
    Toml,
    Yaml,
}

impl Format {
    /// The name of every supported format.
    pub fn all() -> (r: Vec<&'static str>)
        ensures
            r@.len() == 4,
            r@[0]@ == "cbor"@,
            r@[1]@ == "json"@,
            r@[2]@ == "toml"@,
            r@[3]@ == "yaml"@,
    {
        let mut v: Vec<&'static str> = Vec::new();
        v.push("cbor");
        v.push("json");
        v.push("toml");
        v.push("yaml");
        v
    }

    /// The format a name selects, exactly one of the four supported names.
    pub fn from_str(format: &str) -> (r: Result<Format, String>)
        ensures
            match r {
                Ok(f) => (format@ == "cbor"@ && f is Cbor) || (format@ == "json"@ && f is Json) || (
                format@ == "toml"@ && f is Toml) || (format@ == "yaml"@ && f is Yaml),
                Err(_) => format@ != "cbor"@ && format@ != "json"@ && format@ != "toml"@ && format@
                    != "yaml"@,
            },
    {
        if str_eq(format, "cbor") {
            Ok(Format::Cbor)
        } else if str_eq(format, "json") {
            Ok(Format::Json)
        } else if str_eq(format, "toml") {
            Ok(Format::Toml)
        } else if str_eq(format, "yaml") {
            Ok(Format::Yaml)
        } else {
            Err(format.to_owned().concat(" is not a supported format"))
        }
    }
}


/// Whether every measure threshold is configured.
pub open spec fn spec_measure_thresholds_complete(m: config::MeasureEvaluationConfig) -> bool {
    &&& m.large_cyclomatic_complexity is Some
    &&& m.large_cognitive_complexity is Some
    &&& m.large_num_rows_function is Some
    &&& m.large_num_rows_file is Some
}

/// Whether the measure scoring configuration is complete.
pub open spec fn spec_measure_scoring_complete(m: config::MeasureEvaluationConfig) -> bool {
    &&& m.large_cyclomatic_complexity_score is Some
    &&& m.large_cognitive_complexity_score is Some
    &&& m.large_num_rows_function_score is Some
    &&& m.large_num_rows_file_score is Some
    &&& m.measure_score is Some
    &&& m.measure_weight is Some
}

/// Machine bounds on a complete measure scoring configuration.
pub open spec fn spec_measure_cfg_ok(c: config::ConfigV) -> bool {
    match c.quality_evaluation_cfg {
        Option::Some(q) => match q.measeure_cfg {
            Option::Some(m) => spec_measure_scoring_complete(m) ==> {
                &&& 1 <= m.measure_score->0 <= SCORE_INPUT_MAX
                &&& m.measure_weight->0 <= SCORE_INPUT_MAX
            },
            Option::None => true,
        },
        Option::None => true,
    }
}

/// One record with the threshold flags classification sets: a function
/// record is flagged independently for span, cognitive and cyclomatic
/// complexity; any other record only for file span.
pub open spec fn spec_flag_record(
    v: FuncInfoV,
    m: config::MeasureEvaluationConfig,
) -> FuncInfoV {
    if v.kind == FuncKind::Function {
        FuncInfoV {
            name: v.name,
            path: v.path,
            start_line: v.start_line,
            end_line: v.end_line,
            if_large_file: v.if_large_file,
            if_large_function: v.if_large_function || v.end_line - v.start_line
                > m.large_num_rows_function->0,
            kind: v.kind,
            cognitive: v.cognitive,
            if_large_cognitive: v.if_large_cognitive || v.cognitive
                > m.large_cognitive_complexity->0,
            cyclomatic: v.cyclomatic,
            if_large_cyclomatic: v.if_large_cyclomatic || v.cyclomatic
                > m.large_cyclomatic_complexity->0,
        }
    } else {
        FuncInfoV {
            name: v.name,
            path: v.path,
            start_line: v.start_line,
            end_line: v.end_line,
            if_large_file: v.if_large_file || v.end_line - v.start_line
                > m.large_num_rows_file->0,
            if_large_function: v.if_large_function,
            kind: v.kind,
            cognitive: v.cognitive,
            if_large_cognitive: v.if_large_cognitive,
            cyclomatic: v.cyclomatic,
            if_large_cyclomatic: v.if_large_cyclomatic,
        }
    }
}

/// Every record, flagged.
pub open spec fn spec_flagged_records(
    s: Seq<FuncInfoV>,
    m: config::MeasureEvaluationConfig,
) -> Seq<FuncInfoV> {
    Seq::new(s.len(), |i: int| spec_flag_record(s[i], m))
}

/// How many function records exceed the function span threshold.
pub open spec fn spec_large_function_count(
    s: Seq<FuncInfoV>,
    m: config::MeasureEvaluationConfig,
) -> int
    decreases s.len(),
{
    if s.len() == 0 {
        0
    } else {
        spec_large_function_count(s.drop_last(), m) + if s.last().kind == FuncKind::Function
            && s.last().end_line - s.last().start_line > m.large_num_rows_function->0 {
            1int
        } else {
            0int
        }
    }
}

/// How many function records exceed the cognitive complexity threshold.
pub open spec fn spec_large_cognitive_count(
    s: Seq<FuncInfoV>,
    m: config::MeasureEvaluationConfig,
) -> int
    decreases s.len(),
{
    if s.len() == 0 {
        0
    } else {
        spec_large_cognitive_count(s.drop_last(), m) + if s.last().kind == FuncKind::Function
            && s.last().cognitive > m.large_cognitive_complexity->0 {
            1int
        } else {
            0int
        }
    }
}

/// How many function records exceed the cyclomatic complexity threshold.
pub open spec fn spec_large_cyclomatic_count(
    s: Seq<FuncInfoV>,
    m: config::MeasureEvaluationConfig,
) -> int
    decreases s.len(),
{
    if s.len() == 0 {
        0
    } else {
        spec_large_cyclomatic_count(s.drop_last(), m) + if s.last().kind == FuncKind::Function
            && s.last().cyclomatic > m.large_cyclomatic_complexity->0 {
            1int
        } else {
            0int
        }
    }
}

/// How many non-function records exceed the file span threshold.
pub open spec fn spec_large_file_count(
    s: Seq<FuncInfoV>,
    m: config::MeasureEvaluationConfig,
) -> int
    decreases s.len(),
{
    if s.len() == 0 {
        0
    } else {
        spec_large_file_count(s.drop_last(), m) + if s.last().kind != FuncKind::Function
            && s.last().end_line - s.last().start_line > m.large_num_rows_file->0 {
            1int
        } else {
            0int
        }
    }
}

/// Every record's span is well formed: it ends at or after its start.
pub open spec fn spec_records_wf(s: Seq<FuncInfoV>) -> bool {
    forall|i: int| 0 <= i < s.len() ==> #[trigger] s[i].end_line >= s[i].start_line
}

/// Classification flags a record that is not a function record only for
/// file span: its function, cognitive and cyclomatic flags stay as they
/// were.
pub proof fn lemma_non_function_record_flags(v: FuncInfoV, m: config::MeasureEvaluationConfig)
    requires
        v.kind != FuncKind::Function,
    ensures
        spec_flag_record(v, m).if_large_function == v.if_large_function,
        spec_flag_record(v, m).if_large_cognitive == v.if_large_cognitive,
        spec_flag_record(v, m).if_large_cyclomatic == v.if_large_cyclomatic,
        spec_flag_record(v, m).kind == v.kind,
{
}

/// Every record the flattening produces enters classification with no flag
/// set.
pub proof fn lemma_flatten_records_unflagged(path: Seq<char>, f: SpaceNode)
    ensures
        forall|i: int|
            0 <= i < spec_flatten(path, f).len() ==> {
                &&& !(#[trigger] spec_flatten(path, f)[i]).if_large_file
                &&& !spec_flatten(path, f)[i].if_large_function
                &&& !spec_flatten(path, f)[i].if_large_cognitive
                &&& !spec_flatten(path, f)[i].if_large_cyclomatic
            },
    decreases f, f.spaces@.len() + 1,
{
    lemma_flatten_children_unflagged(path, f, 0);
}

proof fn lemma_flatten_children_unflagged(path: Seq<char>, f: SpaceNode, i: int)
    ensures
        forall|j: int|
            0 <= j < spec_flatten_children(path, f, i).len() ==> {
                &&& !(#[trigger] spec_flatten_children(path, f, i)[j]).if_large_file
                &&& !spec_flatten_children(path, f, i)[j].if_large_function
                &&& !spec_flatten_children(path, f, i)[j].if_large_cognitive
                &&& !spec_flatten_children(path, f, i)[j].if_large_cyclomatic
            },
    decreases f, f.spaces@.len() - i,
{
    if 0 <= i < f.spaces@.len() {
        lemma_flatten_records_unflagged(spec_child_path(path, f), f.spaces@[i]);
        lemma_flatten_children_unflagged(path, f, i + 1);
    }
}

/// A whole-compilation-unit record from the flattening never ends
/// classification with a function, cognitive or cyclomatic flag: only its
/// file flag may be set.
pub proof fn lemma_unit_record_only_file_flag(
    path: Seq<char>,
    f: SpaceNode,
    m: config::MeasureEvaluationConfig,
    i: int,
)
    requires
        0 <= i < spec_flatten(path, f).len(),
        spec_flatten(path, f)[i].kind != FuncKind::Function,
    ensures
        !spec_flag_record(spec_flatten(path, f)[i], m).if_large_function,
        !spec_flag_record(spec_flatten(path, f)[i], m).if_large_cognitive,
        !spec_flag_record(spec_flatten(path, f)[i], m).if_large_cyclomatic,
{
    lemma_flatten_records_unflagged(path, f);
}

/// The score the measure check earns from its parse counts under a
/// configuration, or nothing where either is incomplete.
pub open spec fn spec_measure_count_value(
    c: config::ConfigV,
    pr: Option<result::ParseResultDetail>,
) -> Option<result::CountResultDetail> {
    match (c.quality_evaluation_cfg, pr) {
        (
            Option::Some(q),
            Option::Some(
                result::ParseResultDetail::CodeAnalysis {
                    large_cyclomatic_complexity: Option::Some(cyc),
                    large_cognitive_complexity: Option::Some(cog),
                    large_num_rows_file: Option::Some(lf),
                    large_num_rows_function: Option::Some(ln),
                },
            ),
        ) => match q.measeure_cfg {
            Option::Some(m) => match (
                m.large_cyclomatic_complexity_score,
                m.large_cognitive_complexity_score,
                m.large_num_rows_function_score,
                m.large_num_rows_file_score,
                m.measure_score,
                m.measure_weight,
            ) {
                (
                    Option::Some(cyc_s),
                    Option::Some(cog_s),
                    Option::Some(fn_s),
                    Option::Some(file_s),
                    Option::Some(base),
                    Option::Some(wt),
                ) => {
                    let raw = spec_raw_score(
                        base as int,
                        cyc_s * cyc + cog_s * cog + lf * file_s + ln * fn_s,
                    );
                    Option::Some(
                        result::CountResultDetail::CodeAnalysis {
                            score: Option::Some(raw as u64),
                            normalized_score: Option::Some(
                                spec_normalized_score(raw, wt as int) as u64,
                            ),
                        },
                    )
                },
                _ => Option::None,
            },
            Option::None => Option::None,
        },
        _ => Option::None,
    }
}

/// Every measure score the check computes is weight-normalized by integer
/// truncation: `normalized == score * weight / 100`.
pub proof fn lemma_measure_normalized_score(
    c: config::ConfigV,
    pr: Option<result::ParseResultDetail>,
)
    requires
        spec_measure_cfg_ok(c),
        spec_measure_count_value(c, pr) is Some,
    ensures
        match (spec_measure_count_value(c, pr), c.quality_evaluation_cfg) {
            (
                Option::Some(
                    result::CountResultDetail::CodeAnalysis {
                        score: Option::Some(s),
                        normalized_score: Option::Some(n),
                    },
                ),
                Option::Some(q),
            ) => match q.measeure_cfg {
                Option::Some(m) => n == s * m.measure_weight->0 / 100 && s <= 100,
                Option::None => false,
            },
            _ => false,
        },
{
    match (c.quality_evaluation_cfg, pr) {
        (
            Option::Some(q),
            Option::Some(
                result::ParseResultDetail::CodeAnalysis {
                    large_cyclomatic_complexity: Option::Some(cyc),
                    large_cognitive_complexity: Option::Some(cog),
                    large_num_rows_file: Option::Some(lf),
                    large_num_rows_function: Option::Some(ln),
                },
            ),
        ) => match q.measeure_cfg {
            Option::Some(m) => {
                let base = m.measure_score->0;
                let cyc_s = m.large_cyclomatic_complexity_score->0;
                let cog_s = m.large_cognitive_complexity_score->0;
                let fn_s = m.large_num_rows_function_score->0;
                let file_s = m.large_num_rows_file_score->0;
                let wt = m.measure_weight->0;
                assert(cyc_s * cyc >= 0 && cog_s * cog >= 0 && lf * file_s >= 0 && ln * fn_s >= 0)
                    by (nonlinear_arith);
                crate::scoring::lemma_raw_score_bounded(
                    base as int,
                    cyc_s * cyc + cog_s * cog + lf * file_s + ln * fn_s,
                );
                let raw = spec_raw_score(
                    base as int,
                    cyc_s * cyc + cog_s * cog + lf * file_s + ln * fn_s,
                );
                assert(0 <= raw * (wt as int) <= 100 * (wt as int)) by (nonlinear_arith)
                    requires
                        0 <= raw <= 100,
                        0 <= wt,
                ;
                assert(0 <= spec_normalized_score(raw, wt as int) <= wt as int);
            },
            Option::None => {},
        },
        _ => {},
    }
}

/// The code-measure check over one project's space records.
#[derive(Debug)]
pub struct RustCodeAnalysis {
    pub project_cfg: config::ProjectInfoConfig,
    pub config: config::Config,
    pub func_info: Vec<FuncInfo>,
    pub check_result: Option<result::CheckResultDetail>,
    pub parse_result: Option<result::ParseResultDetail>,
    pub count_result: Option<result::CountResultDetail>,
}

/// Flag one record against the thresholds.
fn flag_record(
    v: &FuncInfo,
    t_cyc: u64,
    t_cog: u64,
    t_fn: u64,
    t_file: u64,
    Ghost(m): Ghost<config::MeasureEvaluationConfig>,
) -> (r: FuncInfo)
    requires
        v.end_line >= v.start_line,
        m.large_cyclomatic_complexity == Some(t_cyc),
        m.large_cognitive_complexity == Some(t_cog),
        m.large_num_rows_function == Some(t_fn),
        m.large_num_rows_file == Some(t_file),
    ensures
        r.deep_view() == spec_flag_record(v.deep_view(), m),
{
    let span = v.end_line - v.start_line;
    if matches!(v.kind, FuncKind::Function) {
        FuncInfo {
            name: v.name.clone(),
            path: v.path.clone(),
            start_line: v.start_line,
            end_line: v.end_line,
            if_large_file: v.if_large_file,
            if_large_function: v.if_large_function || (span as u64) > t_fn,
            kind: v.kind,
            cognitive: v.cognitive,
            if_large_cognitive: v.if_large_cognitive || (v.cognitive as u64) > t_cog,
            cyclomatic: v.cyclomatic,
            if_large_cyclomatic: v.if_large_cyclomatic || (v.cyclomatic as u64) > t_cyc,
        }
    } else {
        FuncInfo {
            name: v.name.clone(),
            path: v.path.clone(),
            start_line: v.start_line,
            end_line: v.end_line,
            if_large_file: v.if_large_file || (span as u64) > t_file,
            if_large_function: v.if_large_function,
            kind: v.kind,
            cognitive: v.cognitive,
            if_large_cognitive: v.if_large_cognitive,
            cyclomatic: v.cyclomatic,
            if_large_cyclomatic: v.if_large_cyclomatic,
        }
    }
}

impl super::CheckToolOption for RustCodeAnalysis {
    /// The raw collection must be flattened space records with well-formed
    /// spans.
    open spec fn spec_raw_ok(raw: result::CheckResultDetail) -> bool {
        match raw {
            result::CheckResultDetail::CodeAnalysis { result } => match result {
                Option::Some(recs) => spec_records_wf(recs.deep_view()),
                Option::None => true,
            },
            _ => false,
        }
    }

    /// Collect records the flattened records and changes nothing else.
    open spec fn spec_check_rel(pre: Self, post: Self, raw: result::CheckResultDetail) -> bool {
        &&& post.check_result == Option::Some(raw)
        &&& post.project_cfg == pre.project_cfg
        &&& post.config == pre.config
        &&& post.func_info == pre.func_info
        &&& post.parse_result == pre.parse_result
        &&& post.count_result == pre.count_result
    }

    open spec fn spec_parse_pre(&self) -> bool {
        match self.check_result {
            Option::Some(result::CheckResultDetail::CodeAnalysis { result: Option::Some(recs) }) =>
                spec_records_wf(recs.deep_view()),
            _ => true,
        }
    }

    /// Classification flags every collected record against the thresholds
    /// and tallies each threshold independently; without collected records,
    /// or without all four thresholds, it leaves the state alone.
    open spec fn spec_parse_rel(pre: Self, post: Self) -> bool {
        &&& match (pre.check_result, pre.config.quality_evaluation_cfg) {
            (
                Option::Some(result::CheckResultDetail::CodeAnalysis { result: Option::Some(recs) }),
                Option::Some(q),
            ) => match q.measeure_cfg {
                Option::Some(m) => if spec_measure_thresholds_complete(m) {
                    &&& post.func_info.deep_view() == pre.func_info.deep_view()
                        + spec_flagged_records(recs.deep_view(), m)
                    &&& post.parse_result == Option::Some(
                        result::ParseResultDetail::CodeAnalysis {
                            large_cyclomatic_complexity: Option::Some(
                                spec_large_cyclomatic_count(recs.deep_view(), m) as u64,
                            ),
                            large_cognitive_complexity: Option::Some(
                                spec_large_cognitive_count(recs.deep_view(), m) as u64,
                            ),
                            large_num_rows_file: Option::Some(
                                spec_large_file_count(recs.deep_view(), m) as u64,
                            ),
                            large_num_rows_function: Option::Some(
                                spec_large_function_count(recs.deep_view(), m) as u64,
                            ),
                        },
                    )
                } else {
                    &&& post.func_info == pre.func_info
                    &&& post.parse_result == pre.parse_result
                },
                Option::None => {
                    &&& post.func_info == pre.func_info
                    &&& post.parse_result == pre.parse_result
                },
            },
            _ => {
                &&& post.func_info == pre.func_info
                &&& post.parse_result == pre.parse_result
            },
        }
        &&& post.project_cfg == pre.project_cfg
        &&& post.config == pre.config
        &&& post.check_result == pre.check_result
        &&& post.count_result == pre.count_result
    }

    open spec fn spec_count_pre(&self) -> bool {
        spec_measure_cfg_ok(self.config.deep_view())
    }

    /// Scoring computes the measure score exactly where both the counts and
    /// the full measure scoring configuration are present.
    open spec fn spec_count_rel(pre: Self, post: Self) -> bool {
        &&& post.count_result == match spec_measure_count_value(
            pre.config.deep_view(),
            pre.parse_result,
        ) {
            Option::Some(c) => Option::Some(c),
            Option::None => pre.count_result,
        }
        &&& post.project_cfg == pre.project_cfg
        &&& post.config == pre.config
        &&& post.func_info == pre.func_info
        &&& post.check_result == pre.check_result
        &&& post.parse_result == pre.parse_result
    }

    /// Merging writes the computed score into the code-measure slot and
    /// touches nothing else of the report.
    open spec fn spec_result_rel(
        pre: Self,
        post: Self,
        pre_report: result::CheckReport,
        post_report: result::CheckReport,
    ) -> bool {
        &&& post == pre
        &&& match pre.count_result {
            Option::Some(
                result::CountResultDetail::CodeAnalysis {
                    score: Option::Some(s),
                    normalized_score: Option::Some(n),
                },
            ) => post_report.code_measure == Option::Some(
                result::CodeMeasure { score: Option::Some(s), normalized_score: Option::Some(n) },
            ),
            _ => post_report.code_measure == pre_report.code_measure,
        }
        &&& pre_report.agrees_except_measure(post_report)
    }

    fn check(&mut self, raw: result::CheckResultDetail) {
        self.check_result = Some(raw);
    }

    fn parse(&mut self) {
        match (&self.check_result, &self.config.quality_evaluation_cfg) {
            (
                Some(result::CheckResultDetail::CodeAnalysis { result: Some(recs) }),
                Some(config::QualityEvaluationConfig { measeure_cfg: Some(m), .. }),
            ) => {
                match (
                    m.large_cyclomatic_complexity,
                    m.large_cognitive_complexity,
                    m.large_num_rows_function,
                    m.large_num_rows_file,
                ) {
                    (Some(t_cyc), Some(t_cog), Some(t_fn), Some(t_file)) => {
                        let ghost mv = *m;
                        let ghost recsv = recs.deep_view();
                        let mut flagged: Vec<FuncInfo> = Vec::new();
                        let mut large_cyclomatic_complexity: u64 = 0;
                        let mut large_cognitive_complexity: u64 = 0;
                        let mut large_num_rows_file: u64 = 0;
                        let mut large_num_rows_function: u64 = 0;
                        let mut i: usize = 0;
                        proof {
                            assert(recsv.take(0) =~= Seq::<FuncInfoV>::empty());
                            assert(flagged.deep_view() =~= spec_flagged_records(
                                recsv.take(0),
                                mv,
                            ));
                        }
                        while i < recs.len()
                            invariant
                                0 <= i <= recs@.len(),
                                recsv == recs.deep_view(),
                                recsv.len() == recs@.len(),
                                spec_records_wf(recsv),
                                mv.large_cyclomatic_complexity == Some(t_cyc),
                                mv.large_cognitive_complexity == Some(t_cog),
                                mv.large_num_rows_function == Some(t_fn),
                                mv.large_num_rows_file == Some(t_file),
                                flagged.deep_view() == spec_flagged_records(
                                    recsv.take(i as int),
                                    mv,
                                ),
                                large_cyclomatic_complexity == spec_large_cyclomatic_count(
                                    recsv.take(i as int),
                                    mv,
                                ),
                                large_cognitive_complexity == spec_large_cognitive_count(
                                    recsv.take(i as int),
                                    mv,
                                ),
                                large_num_rows_file == spec_large_file_count(
                                    recsv.take(i as int),
                                    mv,
                                ),
                                large_num_rows_function == spec_large_function_count(
                                    recsv.take(i as int),
                                    mv,
                                ),
                                large_cyclomatic_complexity <= i,
                                large_cognitive_complexity <= i,
                                large_num_rows_file <= i,
                                large_num_rows_function <= i,
                            decreases recs@.len() - i,
                        {
                            proof {
                                assert(recsv.take(i + 1).drop_last() =~= recsv.take(i as int));
                                assert(recsv.take(i + 1).last() == recsv[i as int]);
                                assert(recsv[i as int] == recs[i as int].deep_view());
                            }
                            let v = &recs[i];
                            let ghost flagged0 = flagged.deep_view();
                            let r = flag_record(v, t_cyc, t_cog, t_fn, t_file, Ghost(mv));
                            let span = v.end_line - v.start_line;
                            if matches!(v.kind, FuncKind::Function) {
                                if (span as u64) > t_fn {
                                    large_num_rows_function += 1;
                                }
                                if (v.cognitive as u64) > t_cog {
                                    large_cognitive_complexity += 1;
                                }
                                if (v.cyclomatic as u64) > t_cyc {
                                    large_cyclomatic_complexity += 1;
                                }
                            } else {
                                if (span as u64) > t_file {
                                    large_num_rows_file += 1;
                                }
                            }
                            flagged.push(r);
                            proof {
                                assert(flagged.deep_view() =~= flagged0.push(
                                    spec_flag_record(recsv[i as int], mv),
                                ));
                                assert(flagged.deep_view() =~= spec_flagged_records(
                                    recsv.take(i + 1),
                                    mv,
                                ));
                            }
                            i += 1;
                        }
                        proof {
                            assert(recsv.take(recsv.len() as int) =~= recsv);
                        }
                        let mut all_flagged = flagged;
                        self.func_info.append(&mut all_flagged);
                        self.parse_result = Some(
                            result::ParseResultDetail::CodeAnalysis {
                                large_cyclomatic_complexity: Some(large_cyclomatic_complexity),
                                large_cognitive_complexity: Some(large_cognitive_complexity),
                                large_num_rows_file: Some(large_num_rows_file),
                                large_num_rows_function: Some(large_num_rows_function),
                            },
                        );
                        proof {
                            assert(self.func_info.deep_view() =~= old(self).func_info.deep_view()
                                + spec_flagged_records(recsv, mv));
                        }
                    },
                    _ => {},
                }
            },
            _ => {},
        }
    }

    fn count(&mut self) {
        let computed: Option<result::CountResultDetail> = match &self.config.quality_evaluation_cfg {
            Some(q) => match (&q.measeure_cfg, &self.parse_result) {
                (
                    Some(m),
                    Some(result::ParseResultDetail::CodeAnalysis {
                        large_cyclomatic_complexity: Some(cyc),
                        large_cognitive_complexity: Some(cog),
                        large_num_rows_file: Some(lf),
                        large_num_rows_function: Some(ln),
                    }),
                ) => match (
                    m.large_cyclomatic_complexity_score,
                    m.large_cognitive_complexity_score,
                    m.large_num_rows_function_score,
                    m.large_num_rows_file_score,
                    m.measure_score,
                    m.measure_weight,
                ) {
                    (Some(cyc_s), Some(cog_s), Some(fn_s), Some(file_s), Some(base), Some(wt)) => {
                        let p12 = penalty_add(penalty_mul(cyc_s, *cyc), penalty_mul(cog_s, *cog));
                        let p123 = penalty_add(p12, penalty_mul(*lf, file_s));
                        let penalty = penalty_add(p123, penalty_mul(*ln, fn_s));
                        let score = raw_score(base, penalty);
                        let normalized = normalized_score(score, wt);
                        proof {
                            lemma_clamp_add(cyc_s * *cyc, cog_s * *cog);
                            lemma_clamp_add(cyc_s * *cyc + cog_s * *cog, *lf * file_s);
                            lemma_clamp_add(
                                cyc_s * *cyc + cog_s * *cog + *lf * file_s,
                                *ln * fn_s,
                            );
                            lemma_clamped_penalty_same_score(
                                base as int,
                                cyc_s * *cyc + cog_s * *cog + *lf * file_s + *ln * fn_s,
                            );
                        }
                        Some(
                            result::CountResultDetail::CodeAnalysis {
                                score: Some(score),
                                normalized_score: Some(normalized),
                            },
                        )
                    },
                    _ => None,
                },
                _ => None,
            },
            None => None,
        };
        match computed {
            Some(c) => {
                self.count_result = Some(c);
            },
            None => {},
        }
    }

    fn result(&mut self, result: &mut result::CheckReport) {
        match &self.count_result {
            Some(result::CountResultDetail::CodeAnalysis {
                score: Some(s),
                normalized_score: Some(n),
            }) => {
                result.code_measure = Some(
                    result::CodeMeasure { score: Some(*s), normalized_score: Some(*n) },
                );
            },
            _ => {},
        }
    }
}

} // verus!
