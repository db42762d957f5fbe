//! The report renderer.
//!
//! For each workflow, in the order delivered, the report carries one block
//! with the position marker, the name, the lifecycle state with its visual
//! marker, the derived "is active" flag, the creation and last-modified
//! times (localized when they parse, raw text with a warning when they do
//! not), and the last-run display — which keeps "ran at", "never ran" and
//! "fetch failed" visually distinct. A failure on one workflow never
//! disturbs the blocks of the others.

use crate::decimal::{dec_rep, int_rep, pad2, push_i64, push_pad2, push_u64, push_year, year_rep};
use crate::localtime::{local_display_of, LocalFields};
use crate::model::{RunFetchResult, Workflow, WorkflowList};
use crate::timestamp;
use vstd::prelude::*;
use vstd::string::StringExecFns;

verus! {

pub open spec fn header_text(total: int) -> Seq<char> {
    "🔧 GitHub Workflows Summary\n═══════════════════════════\n📊 Total workflows: "@
        + int_rep(total) + "\n\n"@
}

/// The tri-state visual marker: known-active, known-disabled, unrecognized.
pub open spec fn state_marker_text(state: Seq<char>) -> Seq<char> {
    if state == "active"@ {
        "✅"@
    } else if state == "disabled"@ {
        "❌"@
    } else {
        "❓"@
    }
}

/// The derived flag: active exactly on a textual match, with no case
/// folding and no other state counted.
pub open spec fn active_flag_text(state: Seq<char>) -> Seq<char> {
    if state == "active"@ {
        "Yes ✅"@
    } else {
        "No ❌"@
    }
}

/// A localized instant as displayed: month-day-year at hour:minute.
pub open spec fn local_time_text(f: LocalFields) -> Seq<char> {
    pad2(f.month as int) + "-"@ + pad2(f.day as int) + "-"@ + year_rep(f.year as int) + " at "@
        + pad2(f.hour as int) + ":"@ + pad2(f.minute as int)
}

/// One displayed time field: the localized form when the raw text parsed,
/// the raw text marked as such when it did not.
pub open spec fn time_field_text(raw: Seq<char>, loc: Option<LocalFields>) -> Seq<char> {
    match loc {
        Some(f) => local_time_text(f),
        None => raw + " (raw format)"@,
    }
}

/// The last-run field: its three outcomes stay distinguishable.
pub open spec fn run_field_text(run: RunFetchResult, rf: Option<LocalFields>) -> Seq<char> {
    match run {
        RunFetchResult::LastRun(ts) => time_field_text(ts@, rf),
        RunFetchResult::NeverRun => "Never run ⏸️"@,
        RunFetchResult::Failed(msg) => "Error fetching run data: "@ + msg@ + " ❌"@,
    }
}

pub open spec fn separator_text() -> Seq<char> {
    "━━━━━━━━━━━━━━━━━━━━━━━━━━━━━━━━━━━━━━━━━━━━━━━━━━━━\n\n"@
}

/// One workflow's block, given the three localization decisions.
pub open spec fn block_text(
    index: int,
    w: Workflow,
    run: RunFetchResult,
    cf: Option<LocalFields>,
    uf: Option<LocalFields>,
    rf: Option<LocalFields>,
) -> Seq<char> {
    "🚀 Workflow #"@ + dec_rep((index + 1) as nat) + "\n📝 Name: "@ + w.name@ + "\n"@
        + state_marker_text(w.state@) + " State: "@ + w.state@ + "\n🎉 Created: "@
        + time_field_text(w.created_at@, cf) + "\n🔄 Is Active: "@ + active_flag_text(w.state@)
        + "\n📅 Last Updated: "@ + time_field_text(w.updated_at@, uf) + "\n🏃 Last Run: "@
        + run_field_text(run, rf) + "\n"@ + separator_text()
}

pub open spec fn created_warning_text(raw: Seq<char>) -> Seq<char> {
    "⚠️  Could not parse created_at date format: "@ + raw
}

pub open spec fn updated_warning_text(raw: Seq<char>) -> Seq<char> {
    "⚠️  Could not parse updated_at date format: "@ + raw
}

pub open spec fn run_warning_text(raw: Seq<char>) -> Seq<char> {
    "⚠️  Could not parse last run date format: "@ + raw
}

/// The non-fatal warnings one block raises: one per unparseable timestamp,
/// in field order.
pub open spec fn block_warnings(w: Workflow, run: RunFetchResult) -> Seq<Seq<char>> {
    let created = if timestamp::parse_accepts(w.created_at@) {
        Seq::<Seq<char>>::empty()
    } else {
        seq![created_warning_text(w.created_at@)]
    };
    let updated = if timestamp::parse_accepts(w.updated_at@) {
        Seq::<Seq<char>>::empty()
    } else {
        seq![updated_warning_text(w.updated_at@)]
    };
    let last_run = match run {
        RunFetchResult::LastRun(ts) => if timestamp::parse_accepts(ts@) {
            Seq::<Seq<char>>::empty()
        } else {
            seq![run_warning_text(ts@)]
        },
        _ => Seq::<Seq<char>>::empty(),
    };
    created + updated + last_run
}

/// The three localization decisions are the ones the timestamps in `w` and
/// `run` call for: present exactly when the text parses.
pub open spec fn displays_for(
    w: Workflow,
    run: RunFetchResult,
    cf: Option<LocalFields>,
    uf: Option<LocalFields>,
    rf: Option<LocalFields>,
) -> bool {
    &&& (cf is Some <==> timestamp::parse_accepts(w.created_at@))
    &&& (uf is Some <==> timestamp::parse_accepts(w.updated_at@))
    &&& (cf matches Some(f) ==> f.wf())
    &&& (uf matches Some(f) ==> f.wf())
    &&& (rf matches Some(f) ==> f.wf())
    &&& match run {
        RunFetchResult::LastRun(ts) => rf is Some <==> timestamp::parse_accepts(ts@),
        _ => rf is None,
    }
}

/// The text is the block for this workflow: built from localization
/// decisions that match what parses, local values varying only with the
/// machine's time zone.
pub open spec fn is_block_for(b: Seq<char>, index: int, w: Workflow, run: RunFetchResult) -> bool {
    exists|cf: Option<LocalFields>, uf: Option<LocalFields>, rf: Option<LocalFields>|
        displays_for(w, run, cf, uf, rf) && b == block_text(index, w, run, cf, uf, rf)
}

/// Whether this workflow counts as active: a textual match, nothing else.
pub fn is_active(w: &Workflow) -> (r: bool)
    ensures
        r == (w.state@ == "active"@),
{
    let active = String::from_str("active");
    w.state.eq(&active)
}

/// The visual marker for a lifecycle state.
pub fn state_marker(state: &String) -> (r: &'static str)
    ensures
        r@ == state_marker_text(state@),
{
    let active = String::from_str("active");
    if state.eq(&active) {
        "✅"
    } else {
        let disabled = String::from_str("disabled");
        if state.eq(&disabled) {
            "❌"
        } else {
            "❓"
        }
    }
}

/// The report's header: title, rule, and the delivered total count.
pub fn render_header(total_count: i32) -> (r: String)
    ensures
        r@ == header_text(total_count as int),
{
    let mut s = String::from_str(
        "🔧 GitHub Workflows Summary\n═══════════════════════════\n📊 Total workflows: ",
    );
    push_i64(&mut s, total_count as i64);
    s.append("\n\n");
    proof {
        assert(s@ =~= header_text(total_count as int));
    }
    s
}

fn push_local_time(s: &mut String, f: &LocalFields)
    requires
        f.wf(),
    ensures
        final(s)@ == old(s)@ + local_time_text(*f),
{
    push_pad2(s, f.month);
    s.append("-");
    push_pad2(s, f.day);
    s.append("-");
    push_year(s, f.year);
    s.append(" at ");
    push_pad2(s, f.hour);
    s.append(":");
    push_pad2(s, f.minute);
    proof {
        assert(s@ =~= old(s)@ + local_time_text(*f));
    }
}

fn push_time_field(s: &mut String, raw: &String, loc: Option<LocalFields>)
    requires
        loc matches Some(f) ==> f.wf(),
    ensures
        final(s)@ == old(s)@ + time_field_text(raw@, loc),
{
    match loc {
        Some(f) => push_local_time(s, &f),
        None => {
            s.append(raw.as_str());
            s.append(" (raw format)");
            proof {
                assert(s@ =~= old(s)@ + time_field_text(raw@, loc));
            }
        },
    }
}

/// One workflow's block, from given localization decisions. Taking the
/// decisions as arguments pins the text exactly for every value of them.
pub fn render_workflow_block_with(
    index: usize,
    w: &Workflow,
    run: &RunFetchResult,
    cf: Option<LocalFields>,
    uf: Option<LocalFields>,
    rf: Option<LocalFields>,
) -> (r: String)
    requires
        index < usize::MAX,
        cf matches Some(f) ==> f.wf(),
        uf matches Some(f) ==> f.wf(),
        rf matches Some(f) ==> f.wf(),
    ensures
        r@ == block_text(index as int, *w, *run, cf, uf, rf),
{
    let mut s = String::from_str("🚀 Workflow #");
    push_u64(&mut s, (index as u64) + 1);
    s.append("\n📝 Name: ");
    s.append(w.name.as_str());
    s.append("\n");
    s.append(state_marker(&w.state));
    s.append(" State: ");
    s.append(w.state.as_str());
    s.append("\n🎉 Created: ");
    push_time_field(&mut s, &w.created_at, cf);
    s.append("\n🔄 Is Active: ");
    if is_active(w) {
        s.append("Yes ✅");
    } else {
        s.append("No ❌");
    }
    s.append("\n📅 Last Updated: ");
    push_time_field(&mut s, &w.updated_at, uf);
    s.append("\n🏃 Last Run: ");
    match run {
        RunFetchResult::LastRun(ts) => push_time_field(&mut s, ts, rf),
        RunFetchResult::NeverRun => s.append("Never run ⏸️"),
        RunFetchResult::Failed(msg) => {
            s.append("Error fetching run data: ");
            s.append(msg.as_str());
            s.append(" ❌");
        },
    }
    s.append("\n");
    s.append("━━━━━━━━━━━━━━━━━━━━━━━━━━━━━━━━━━━━━━━━━━━━━━━━━━━━\n\n");
    proof {
        assert(s@ =~= block_text(index as int, *w, *run, cf, uf, rf));
    }
    s
}

fn created_warning(raw: &String) -> (r: String)
    ensures
        r@ == created_warning_text(raw@),
{
    let mut s = String::from_str("⚠️  Could not parse created_at date format: ");
    s.append(raw.as_str());
    s
}

fn updated_warning(raw: &String) -> (r: String)
    ensures
        r@ == updated_warning_text(raw@),
{
    let mut s = String::from_str("⚠️  Could not parse updated_at date format: ");
    s.append(raw.as_str());
    s
}

fn run_warning(raw: &String) -> (r: String)
    ensures
        r@ == run_warning_text(raw@),
{
    let mut s = String::from_str("⚠️  Could not parse last run date format: ");
    s.append(raw.as_str());
    s
}

/// One workflow's block together with its warnings: parses the three
/// timestamps, localizes what parses, and assembles the text.
pub fn render_workflow_block(index: usize, w: &Workflow, run: &RunFetchResult) -> (r: (
    String,
    Vec<String>,
))
    requires
        index < usize::MAX,
    ensures
        is_block_for(r.0@, index as int, *w, *run),
        r.1.deep_view() == block_warnings(*w, *run),
{
    let cf = local_display_of(w.created_at.as_str());
    let uf = local_display_of(w.updated_at.as_str());
    let rf = match run {
        RunFetchResult::LastRun(ts) => local_display_of(ts.as_str()),
        _ => None,
    };
    let text = render_workflow_block_with(index, w, run, cf, uf, rf);
    let mut warnings: Vec<String> = Vec::new();
    if cf.is_none() {
        warnings.push(created_warning(&w.created_at));
    }
    if uf.is_none() {
        warnings.push(updated_warning(&w.updated_at));
    }
    if let RunFetchResult::LastRun(ts) = run {
        if rf.is_none() {
            warnings.push(run_warning(ts));
        }
    }
    proof {
        assert(displays_for(*w, *run, cf, uf, rf));
        assert(text@ == block_text(index as int, *w, *run, cf, uf, rf));
        assert(is_block_for(text@, index as int, *w, *run));
        assert(warnings.deep_view() =~= block_warnings(*w, *run));
    }
    (text, warnings)
}

/// All block texts in a row.
pub open spec fn concat_texts(blocks: Seq<Seq<char>>) -> Seq<char>
    decreases blocks.len(),
{
    if blocks.len() == 0 {
        Seq::empty()
    } else {
        blocks[0] + concat_texts(blocks.drop_first())
    }
}

pub proof fn lemma_concat_texts_push(blocks: Seq<Seq<char>>, b: Seq<char>)
    ensures
        concat_texts(blocks.push(b)) == concat_texts(blocks) + b,
    decreases blocks.len(),
{
    if blocks.len() == 0 {
        let p = blocks.push(b);
        assert(p[0] == b);
        assert(p.drop_first() =~= Seq::<Seq<char>>::empty());
        assert(concat_texts(p.drop_first()) == Seq::<char>::empty());
        assert(concat_texts(p) == b + Seq::<char>::empty());
        assert(b + Seq::<char>::empty() =~= Seq::<char>::empty() + b);
        assert(concat_texts(blocks) == Seq::<char>::empty());
    } else {
        assert(blocks.push(b).drop_first() =~= blocks.drop_first().push(b));
        lemma_concat_texts_push(blocks.drop_first(), b);
        assert(concat_texts(blocks.push(b)) =~= concat_texts(blocks) + b);
    }
}

/// The warnings of the first `n` workflows, in order.
pub open spec fn report_warnings(ws: Seq<Workflow>, rs: Seq<RunFetchResult>, n: int) -> Seq<
    Seq<char>,
>
    decreases n,
{
    if n <= 0 {
        Seq::empty()
    } else {
        report_warnings(ws, rs, n - 1) + block_warnings(ws[n - 1], rs[n - 1])
    }
}

/// The whole report: the header, then exactly one block per workflow, in
/// the delivered order, each block paired with the run result fetched for
/// it; and the warnings the blocks raised, in the same order.
pub fn render_report(list: &WorkflowList, runs: &Vec<RunFetchResult>) -> (r: (String, Vec<String>))
    requires
        runs@.len() == list.workflows@.len(),
    ensures
        exists|blocks: Seq<Seq<char>>|
            {
                &&& blocks.len() == list.workflows@.len()
                &&& r.0@ == header_text(list.total_count as int) + concat_texts(blocks)
                &&& (forall|j: int|
                    0 <= j < blocks.len() ==> is_block_for(
                        blocks[j],
                        j,
                        list.workflows@[j],
                        runs@[j],
                    ))
            },
        r.1.deep_view() == report_warnings(list.workflows@, runs@, list.workflows@.len() as int),
{
    let mut out = render_header(list.total_count);
    let mut warnings: Vec<String> = Vec::new();
    let ghost mut blocks: Seq<Seq<char>> = Seq::empty();
    let n = list.workflows.len();
    for i in 0..n
        invariant
            n == list.workflows@.len(),
            runs@.len() == n,
            blocks.len() == i,
            out@ == header_text(list.total_count as int) + concat_texts(blocks),
            forall|j: int| 0 <= j < i ==> is_block_for(blocks[j], j, list.workflows@[j], runs@[j]),
            warnings.deep_view() == report_warnings(list.workflows@, runs@, i as int),
    {
        let w = &list.workflows[i];
        let run = &runs[i];
        let (btext, mut bwarn) = render_workflow_block(i, w, run);
        proof {
            lemma_concat_texts_push(blocks, btext@);
        }
        out.append(btext.as_str());
        warnings.append(&mut bwarn);
        proof {
            blocks = blocks.push(btext@);
            assert(out@ =~= header_text(list.total_count as int) + concat_texts(blocks));
            assert(warnings.deep_view() =~= report_warnings(
                list.workflows@,
                runs@,
                i as int + 1,
            ));
        }
    }
    proof {
        assert(blocks.len() == list.workflows@.len() && out@ == header_text(
            list.total_count as int,
        ) + concat_texts(blocks) && (forall|j: int|
            0 <= j < blocks.len() ==> is_block_for(blocks[j], j, list.workflows@[j], runs@[j])));
    }
    (out, warnings)
}

} // verus!
