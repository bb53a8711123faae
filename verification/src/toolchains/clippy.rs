//! The static check: classifies the lint engine's text output into tagged
//! finding blocks and scores the warning and error tallies.
//!
//! The classifier is a small state machine over the output's lines: blocks
//! are delimited by blank lines, the first line of a block that yields a
//! recognized annotation tag fixes the block's severity, and a block that
//! ends without a tag is discarded.

use vstd::prelude::*;

use crate::config;
use crate::result;
use crate::scoring::{
    penalty_add, penalty_mul, raw_score, normalized_score, spec_raw_score, spec_normalized_score,
    clamp_u64, lemma_raw_score_bounded, SCORE_INPUT_MAX,
};
use crate::text::{find_sub, spec_find};

verus! {

/// The severity tag of one lint finding.
#[derive(Debug, Clone, PartialEq, Eq)]
pub enum LintKind {
    ClippyWarn(String),
    ClippyDeny(String),
    RustWarn(String),
    RustDeny(String),
    Untagged,
}

/// Mathematical model of [`LintKind`].
pub enum LintKindV {
    ClippyWarn(Seq<char>),
    ClippyDeny(Seq<char>),
    RustWarn(Seq<char>),
    RustDeny(Seq<char>),
    Untagged,
}

impl DeepView for LintKind {
    type V = LintKindV;

    open spec fn deep_view(&self) -> LintKindV {
        match self {
            LintKind::ClippyWarn(s) => LintKindV::ClippyWarn(s@),
            LintKind::ClippyDeny(s) => LintKindV::ClippyDeny(s@),
            LintKind::RustWarn(s) => LintKindV::RustWarn(s@),
            LintKind::RustDeny(s) => LintKindV::RustDeny(s@),
            LintKind::Untagged => LintKindV::Untagged,
        }
    }
}

/// One lint finding: the block it came from, its tag, and the block's lines.
#[derive(Debug)]
pub struct LintInfo {
    pub ind: u32,
    pub lint_kind: LintKind,
    pub content: Vec<String>,
}

/// Mathematical model of [`LintInfo`].
#[verifier::ext_equal]
pub struct LintInfoV {
    pub ind: u32,
    pub lint_kind: LintKindV,
    pub content: Seq<Seq<char>>,
}

impl DeepView for LintInfo {
    type V = LintInfoV;

    open spec fn deep_view(&self) -> LintInfoV {
        LintInfoV {
            ind: self.ind,
            lint_kind: self.lint_kind.deep_view(),
            content: self.content.deep_view(),
        }
    }
}

/// The tag text an annotation pattern yields on a line: the span from the
/// pattern's first occurrence to the line's first closing parenthesis. A
/// line without the pattern, without a closing parenthesis, or whose first
/// closing parenthesis comes before the pattern yields nothing.
pub open spec fn spec_tag_for(s: Seq<char>, pat: Seq<char>) -> Option<Seq<char>> {
    match (spec_find(s, pat, 0), spec_find(s, ")"@, 0)) {
        (Option::Some(p), Option::Some(e)) => if p <= e {
            Option::Some(s.subrange(p, e))
        } else {
            Option::None
        },
        _ => Option::None,
    }
}

/// The severity tag one line yields. The generic markers are tried before
/// the linter-specific ones, so a line holding a linter-specific annotation
/// is awarded the generic tag; the specific variants remain for the result
/// type's users.
pub open spec fn spec_line_kind(s: Seq<char>) -> LintKindV {
    match spec_tag_for(s, "#[warn("@) {
        Option::Some(t) => LintKindV::RustWarn(t),
        Option::None => match spec_tag_for(s, "#[deny("@) {
            Option::Some(t) => LintKindV::RustDeny(t),
            Option::None => match spec_tag_for(s, "#[warn(clippy::"@) {
                Option::Some(t) => LintKindV::ClippyWarn(t),
                Option::None => match spec_tag_for(s, "#[deny(clippy::"@) {
                    Option::Some(t) => LintKindV::ClippyDeny(t),
                    Option::None => LintKindV::Untagged,
                },
            },
        },
    }
}

/// The tag an annotation pattern yields on a line, executable form.
fn tag_for(s: &str, pat: &str) -> (r: Option<String>)
    ensures
        r.deep_view() == spec_tag_for(s@, pat@),
{
    let p = find_sub(s, pat);
    let e = find_sub(s, ")");
    proof {
        crate::text::lemma_spec_find(s@, pat@, 0);
        crate::text::lemma_spec_find(s@, ")"@, 0);
    }
    match (p, e) {
        (Some(p), Some(e)) => {
            if p <= e {
                Some(s.substring_char(p, e).to_owned())
            } else {
                None
            }
        },
        _ => None,
    }
}

/// Parse one line of lint output into its severity tag.
pub fn get_lint_kind(s: &str) -> (r: LintKind)
    ensures
        r.deep_view() == spec_line_kind(s@),
{
    if let Some(t) = tag_for(s, "#[warn(") {
        LintKind::RustWarn(t)
    } else if let Some(t) = tag_for(s, "#[deny(") {
        LintKind::RustDeny(t)
    } else if let Some(t) = tag_for(s, "#[warn(clippy::") {
        LintKind::ClippyWarn(t)
    } else if let Some(t) = tag_for(s, "#[deny(clippy::") {
        LintKind::ClippyDeny(t)
    } else {
        LintKind::Untagged
    }
}

/// The classifier's state between two lines: the index the next block will
/// get, the tag and content of the block being read, and the findings saved
/// so far.
pub struct ScanState {
    pub next_ind: int,
    pub tag: LintKindV,
    pub content: Seq<Seq<char>>,
    pub out: Seq<LintInfoV>,
}

/// The state before any line: the first block gets index 1.
pub open spec fn spec_scan_init() -> ScanState {
    ScanState {
        next_ind: 1,
        tag: LintKindV::Untagged,
        content: Seq::empty(),
        out: Seq::empty(),
    }
}

/// Save the block being read, if it earned a tag.
pub open spec fn spec_scan_save(st: ScanState) -> Seq<LintInfoV> {
    match st.tag {
        LintKindV::Untagged => st.out,
        _ => st.out.push(
            LintInfoV { ind: st.next_ind as u32, lint_kind: st.tag, content: st.content },
        ),
    }
}

/// One line's effect on the classifier's state. A blank line ends the block:
/// the block is saved if some line of it yielded a tag. A non-blank line
/// joins the block's content, and fixes the block's tag if it is the first
/// line to yield one.
pub open spec fn spec_scan_step(st: ScanState, line: Seq<char>) -> ScanState {
    if line.len() == 0 {
        ScanState {
            next_ind: st.next_ind + 1,
            tag: LintKindV::Untagged,
            content: Seq::empty(),
            out: spec_scan_save(st),
        }
    } else {
        ScanState {
            next_ind: st.next_ind,
            tag: match st.tag {
                LintKindV::Untagged => spec_line_kind(line),
                _ => st.tag,
            },
            content: st.content.push(line),
            out: st.out,
        }
    }
}

/// The classifier's state after the first `i` lines.
pub open spec fn spec_scan_fold(lines: Seq<Seq<char>>, i: int) -> ScanState
    decreases i,
{
    if i <= 0 {
        spec_scan_init()
    } else {
        spec_scan_step(spec_scan_fold(lines, i - 1), lines[i - 1])
    }
}

/// Every finding the classifier extracts from the given lines; input that
/// ends without a blank line still has its last block saved.
pub open spec fn spec_classify(lines: Seq<Seq<char>>) -> Seq<LintInfoV> {
    spec_scan_save(spec_scan_fold(lines, lines.len() as int))
}

/// Whether a finding counts as a warning.
pub open spec fn spec_is_warn(li: LintInfoV) -> bool {
    li.lint_kind is RustWarn || li.lint_kind is ClippyWarn
}

/// Whether a finding counts as an error.
pub open spec fn spec_is_err(li: LintInfoV) -> bool {
    li.lint_kind is RustDeny || li.lint_kind is ClippyDeny
}

/// How many findings count as warnings.
pub open spec fn spec_count_warn(s: Seq<LintInfoV>) -> int
    decreases s.len(),
{
    if s.len() == 0 {
        0
    } else {
        spec_count_warn(s.drop_last()) + if spec_is_warn(s.last()) {
            1int
        } else {
            0int
        }
    }
}

/// How many findings count as errors.
pub open spec fn spec_count_err(s: Seq<LintInfoV>) -> int
    decreases s.len(),
{
    if s.len() == 0 {
        0
    } else {
        spec_count_err(s.drop_last()) + if spec_is_err(s.last()) {
            1int
        } else {
            0int
        }
    }
}

/// Classify the lint engine's output lines into finding blocks.
pub fn classify_lines(lines: &Vec<String>) -> (r: Vec<LintInfo>)
    requires
        lines@.len() < u32::MAX,
    ensures
        r.deep_view() == spec_classify(lines.deep_view()),
{
    let ghost lv = lines.deep_view();
    let mut out: Vec<LintInfo> = Vec::new();
    let mut block_ind: u32 = 1;
    let mut lint_kind = LintKind::Untagged;
    let mut content: Vec<String> = Vec::new();
    let mut i: usize = 0;
    proof {
        assert(out.deep_view() =~= spec_scan_fold(lv, 0).out);
        assert(content.deep_view() =~= spec_scan_fold(lv, 0).content);
    }
    while i < lines.len()
        invariant
            0 <= i <= lines@.len(),
            lines@.len() < u32::MAX,
            lv == lines.deep_view(),
            block_ind as int == spec_scan_fold(lv, i as int).next_ind,
            block_ind <= 1 + i,
            lint_kind.deep_view() == spec_scan_fold(lv, i as int).tag,
            content.deep_view() == spec_scan_fold(lv, i as int).content,
            out.deep_view() == spec_scan_fold(lv, i as int).out,
        decreases lines@.len() - i,
    {
        let ghost st = spec_scan_fold(lv, i as int);
        let l = &lines[i];
        proof {
            assert(l@ == lv[i as int]);
            assert(spec_scan_fold(lv, i + 1) == spec_scan_step(st, lv[i as int]));
        }
        if l.as_str().is_empty() {
            let k = lint_kind;
            lint_kind = LintKind::Untagged;
            let c = content;
            content = Vec::new();
            let tagged = !matches!(k, LintKind::Untagged);
            if tagged {
                out.push(LintInfo { ind: block_ind, lint_kind: k, content: c });
            }
            block_ind += 1;
            proof {
                assert(out.deep_view() =~= spec_scan_fold(lv, i + 1).out);
                assert(content.deep_view() =~= spec_scan_fold(lv, i + 1).content);
            }
        } else {
            let is_untagged = matches!(lint_kind, LintKind::Untagged);
            if is_untagged {
                lint_kind = get_lint_kind(l.as_str());
            }
            content.push(l.clone());
            proof {
                assert(content.deep_view() =~= spec_scan_fold(lv, i + 1).content);
            }
        }
        i += 1;
    }
    let tagged = !matches!(lint_kind, LintKind::Untagged);
    if tagged {
        out.push(LintInfo { ind: block_ind, lint_kind, content });
    }
    proof {
        assert(out.deep_view() =~= spec_classify(lv));
    }
    out
}

/// Count the warning and error findings: `(errors, warnings)`.
fn count_lints(v: &Vec<LintInfo>) -> (r: (u64, u64))
    ensures
        r.0 == spec_count_err(v.deep_view()),
        r.1 == spec_count_warn(v.deep_view()),
{
    let ghost vv = v.deep_view();
    let mut res_err: u64 = 0;
    let mut res_warn: u64 = 0;
    let mut i: usize = 0;
    proof {
        assert(vv.take(0) =~= Seq::<LintInfoV>::empty());
    }
    while i < v.len()
        invariant
            0 <= i <= vv.len(),
            vv == v.deep_view(),
            vv.len() == v@.len(),
            res_err == spec_count_err(vv.take(i as int)),
            res_warn == spec_count_warn(vv.take(i as int)),
            res_err <= i,
            res_warn <= i,
        decreases vv.len() - i,
    {
        proof {
            assert(vv.take(i + 1).drop_last() =~= vv.take(i as int));
            assert(vv.take(i + 1).last() == vv[i as int]);
        }
        match &v[i].lint_kind {
            LintKind::ClippyWarn(_) | LintKind::RustWarn(_) => {
                res_warn += 1;
            },
            LintKind::ClippyDeny(_) | LintKind::RustDeny(_) => {
                res_err += 1;
            },
            _ => {},
        }
        i += 1;
    }
    proof {
        assert(vv.take(vv.len() as int) =~= vv);
    }
    (res_err, res_warn)
}

/// The static check over one project's lint output.
#[derive(Debug)]
pub struct Clippy {
    pub project_cfg: config::ProjectInfoConfig,
    pub config: config::Config,
    pub lint_info: Vec<LintInfo>,
    pub check_result: Option<result::CheckResultDetail>,
    pub parse_result: Option<result::ParseResultDetail>,
    pub count_result: Option<result::CountResultDetail>,
}

impl Clippy {
    /// Save one classified block, unless it never earned a tag.
    pub fn save_lint_item(&mut self, ind: u32, lint_kind: LintKind, content: Vec<String>)
        ensures
            final(self).lint_info.deep_view() == spec_scan_save(
                ScanState {
                    next_ind: ind as int,
                    tag: lint_kind.deep_view(),
                    content: content.deep_view(),
                    out: old(self).lint_info.deep_view(),
                },
            ),
            final(self).project_cfg == old(self).project_cfg,
            final(self).config == old(self).config,
            final(self).check_result == old(self).check_result,
            final(self).parse_result == old(self).parse_result,
            final(self).count_result == old(self).count_result,
    {
        let tagged = !matches!(lint_kind, LintKind::Untagged);
        if tagged {
            self.lint_info.push(LintInfo { ind, lint_kind, content });
            proof {
                assert(self.lint_info.deep_view() =~= spec_scan_save(
                    ScanState {
                        next_ind: ind as int,
                        tag: lint_kind.deep_view(),
                        content: content.deep_view(),
                        out: old(self).lint_info.deep_view(),
                    },
                ));
            }
        }
    }
}

/// Whether the static scoring configuration is complete.
pub open spec fn spec_static_complete(s: config::StaticCheckEvaluationConfig) -> bool {
    &&& s.error_score is Some
    &&& s.warn_score is Some
    &&& s.static_check_score is Some
    &&& s.static_check_weight is Some
}

/// Machine bounds on a complete static scoring configuration: the base must
/// be positive and small enough to be scaled to the 0-100 range, the weight
/// small enough to scale a 0-100 score.
pub open spec fn spec_static_cfg_ok(c: config::ConfigV) -> bool {
    match c.quality_evaluation_cfg {
        Option::Some(q) => match q.static_check_cfg {
            Option::Some(s) => spec_static_complete(s) ==> {
                &&& 1 <= s.static_check_score->0 <= SCORE_INPUT_MAX
                &&& s.static_check_weight->0 <= SCORE_INPUT_MAX
            },
            Option::None => true,
        },
        Option::None => true,
    }
}

/// The score the static check earns from its parse counts under a
/// configuration, or nothing where either is incomplete.
pub open spec fn spec_static_count_value(
    c: config::ConfigV,
    pr: Option<result::ParseResultDetail>,
) -> Option<result::CountResultDetail> {
    match (c.quality_evaluation_cfg, pr) {
        (
            Option::Some(q),
            Option::Some(result::ParseResultDetail::Clippy { error: Option::Some(e), warn: Option::Some(w) }),
        ) => match q.static_check_cfg {
            Option::Some(s) => match (s.static_check_score, s.warn_score, s.error_score, s.static_check_weight) {
                (
                    Option::Some(base),
                    Option::Some(ws),
                    Option::Some(es),
                    Option::Some(wt),
                ) => {
                    let raw = spec_raw_score(base as int, w * ws + e * es);
                    Option::Some(
                        result::CountResultDetail::Clippy {
                            score: Option::Some(raw as u64),
                            normalized_score: Option::Some(
                                spec_normalized_score(raw, wt as int) as u64,
                            ),
                        },
                    )
                },
                _ => Option::None,
            },
            Option::None => Option::None,
        },
        _ => Option::None,
    }
}

/// Every static score the check computes is weight-normalized by integer
/// truncation: `normalized == score * weight / 100`.
pub proof fn lemma_static_normalized_score(
    c: config::ConfigV,
    pr: Option<result::ParseResultDetail>,
)
    requires
        spec_static_cfg_ok(c),
        spec_static_count_value(c, pr) is Some,
    ensures
        match (spec_static_count_value(c, pr), c.quality_evaluation_cfg) {
            (
                Option::Some(
                    result::CountResultDetail::Clippy {
                        score: Option::Some(s),
                        normalized_score: Option::Some(n),
                    },
                ),
                Option::Some(q),
            ) => match q.static_check_cfg {
                Option::Some(sc) => n == s * sc.static_check_weight->0 / 100 && s <= 100,
                Option::None => false,
            },
            _ => false,
        },
{
    match (c.quality_evaluation_cfg, pr) {
        (
            Option::Some(q),
            Option::Some(
                result::ParseResultDetail::Clippy {
                    error: Option::Some(e),
                    warn: Option::Some(w),
                },
            ),
        ) => match q.static_check_cfg {
            Option::Some(sc) => {
                let base = sc.static_check_score->0;
                let ws = sc.warn_score->0;
                let es = sc.error_score->0;
                let wt = sc.static_check_weight->0;
                assert(w * ws >= 0 && e * es >= 0) by (nonlinear_arith);
                lemma_raw_score_bounded(base as int, w * ws + e * es);
                let raw = spec_raw_score(base as int, w * ws + e * es);
                assert(0 <= raw * (wt as int) <= 100 * (wt as int)) by (nonlinear_arith)
                    requires
                        0 <= raw <= 100,
                        0 <= wt,
                ;
                assert(0 <= spec_normalized_score(raw, wt as int) <= wt as int);
            },
            Option::None => {},
        },
        _ => {},
    }
}

impl super::CheckToolOption for Clippy {
    /// The raw collection must be lint output whose line count leaves room
    /// for the block indices.
    open spec fn spec_raw_ok(raw: result::CheckResultDetail) -> bool {
        match raw {
            result::CheckResultDetail::Clippy { result } => match result {
                Option::Some(lines) => lines@.len() < u32::MAX,
                Option::None => true,
            },
            _ => false,
        }
    }

    /// Collect records the raw lines and changes nothing else.
    open spec fn spec_check_rel(pre: Self, post: Self, raw: result::CheckResultDetail) -> bool {
        &&& post.check_result == Option::Some(raw)
        &&& post.project_cfg == pre.project_cfg
        &&& post.config == pre.config
        &&& post.lint_info == pre.lint_info
        &&& post.parse_result == pre.parse_result
        &&& post.count_result == pre.count_result
    }

    open spec fn spec_parse_pre(&self) -> bool {
        match self.check_result {
            Option::Some(result::CheckResultDetail::Clippy { result: Option::Some(lines) }) =>
                lines@.len() < u32::MAX,
            _ => true,
        }
    }

    /// Classification turns collected lines into the classified blocks and
    /// their warning and error counts; without collected lines it leaves the
    /// state alone.
    open spec fn spec_parse_rel(pre: Self, post: Self) -> bool {
        &&& match pre.check_result {
            Option::Some(result::CheckResultDetail::Clippy { result: Option::Some(lines) }) => {
                &&& post.lint_info.deep_view() == spec_classify(lines.deep_view())
                &&& post.parse_result == Option::Some(
                    result::ParseResultDetail::Clippy {
                        error: Option::Some(
                            spec_count_err(spec_classify(lines.deep_view())) as u64,
                        ),
                        warn: Option::Some(
                            spec_count_warn(spec_classify(lines.deep_view())) as u64,
                        ),
                    },
                )
            },
            _ => {
                &&& post.lint_info == pre.lint_info
                &&& post.parse_result == pre.parse_result
            },
        }
        &&& post.project_cfg == pre.project_cfg
        &&& post.config == pre.config
        &&& post.check_result == pre.check_result
        &&& post.count_result == pre.count_result
    }

    open spec fn spec_count_pre(&self) -> bool {
        spec_static_cfg_ok(self.config.deep_view())
    }

    /// Scoring computes the static score exactly where both the counts and
    /// the full static configuration are present.
    open spec fn spec_count_rel(pre: Self, post: Self) -> bool {
        &&& post.count_result == match spec_static_count_value(
            pre.config.deep_view(),
            pre.parse_result,
        ) {
            Option::Some(c) => Option::Some(c),
            Option::None => pre.count_result,
        }
        &&& post.project_cfg == pre.project_cfg
        &&& post.config == pre.config
        &&& post.lint_info == pre.lint_info
        &&& post.check_result == pre.check_result
        &&& post.parse_result == pre.parse_result
    }

    /// Merging writes the computed score into the static-check slot and
    /// touches nothing else of the report.
    open spec fn spec_result_rel(
        pre: Self,
        post: Self,
        pre_report: result::CheckReport,
        post_report: result::CheckReport,
    ) -> bool {
        &&& post == pre
        &&& match pre.count_result {
            Option::Some(
                result::CountResultDetail::Clippy {
                    score: Option::Some(s),
                    normalized_score: Option::Some(n),
                },
            ) => post_report.static_check == Option::Some(
                result::StaticCheck { score: Option::Some(s), normalized_score: Option::Some(n) },
            ),
            _ => post_report.static_check == pre_report.static_check,
        }
        &&& pre_report.agrees_except_static(post_report)
    }

    fn check(&mut self, raw: result::CheckResultDetail) {
        self.check_result = Some(raw);
    }

    fn parse(&mut self) {
        let computed: Option<(Vec<LintInfo>, u64, u64)> = match &self.check_result {
            Some(result::CheckResultDetail::Clippy { result: Some(lines) }) => {
                let li = classify_lines(lines);
                let (e, w) = count_lints(&li);
                Some((li, e, w))
            },
            _ => None,
        };
        match computed {
            Some((li, e, w)) => {
                self.lint_info = li;
                self.parse_result = Some(
                    result::ParseResultDetail::Clippy { error: Some(e), warn: Some(w) },
                );
            },
            None => {},
        }
    }

    fn count(&mut self) {
        let computed: Option<result::CountResultDetail> = match &self.config.quality_evaluation_cfg {
            Some(q) => match (&q.static_check_cfg, &self.parse_result) {
                (
                    Some(s),
                    Some(result::ParseResultDetail::Clippy { error: Some(e), warn: Some(w) }),
                ) => match (s.static_check_score, s.warn_score, s.error_score, s.static_check_weight) {
                    (Some(base), Some(ws), Some(es), Some(wt)) => {
                        let penalty = penalty_add(penalty_mul(*w, ws), penalty_mul(*e, es));
                        let score = raw_score(base, penalty);
                        let normalized = normalized_score(score, wt);
                        proof {
                            lemma_raw_score_bounded(base as int, *w * ws + *e * es);
                            assert(penalty as int == clamp_u64(
                                clamp_u64(*w * ws) + clamp_u64(*e * es),
                            ));
                            lemma_static_penalty_clamp(base as int, *w * ws, *e * es);
                        }
                        Some(
                            result::CountResultDetail::Clippy {
                                score: Some(score),
                                normalized_score: Some(normalized),
                            },
                        )
                    },
                    _ => None,
                },
                _ => None,
            },
            None => None,
        };
        match computed {
            Some(c) => {
                self.count_result = Some(c);
            },
            None => {},
        }
    }

    fn result(&mut self, result: &mut result::CheckReport) {
        match &self.count_result {
            Some(result::CountResultDetail::Clippy { score: Some(s), normalized_score: Some(n) }) => {
                result.static_check = Some(
                    result::StaticCheck {
                        score: Some(*s),
                        normalized_score: Some(*n),
                    },
                );
            },
            _ => {},
        }
    }
}

/// Clamping each penalty term and their sum at `u64::MAX` never changes the
/// score: a clamped total passes the base exactly when the true total does.
pub proof fn lemma_static_penalty_clamp(base: int, a: int, b: int)
    requires
        1 <= base <= SCORE_INPUT_MAX,
        0 <= a,
        0 <= b,
    ensures
        spec_raw_score(base, clamp_u64(clamp_u64(a) + clamp_u64(b))) == spec_raw_score(
            base,
            a + b,
        ),
{
}

} // verus!
