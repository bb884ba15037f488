//! The human-readable status output: one line per running compute process,
//! and the string joining it is built from.

use vstd::prelude::*;
use vstd::string::StringExecFns;

use crate::digits::dec_spec;
use crate::digits::u64_to_dec;
use crate::model::ProcessRow;
use crate::model::RowView;
use crate::snapshot::row_views;

verus! {

/// The views of a list of strings.
pub open spec fn str_views(parts: Seq<String>) -> Seq<Seq<char>> {
    parts.map_values(|s: String| s@)
}

/// `parts` joined by `sep`: nothing for no parts, and no leading or trailing
/// separator otherwise.
pub open spec fn join_spec(parts: Seq<Seq<char>>, sep: Seq<char>) -> Seq<char>
    decreases parts.len(),
{
    if parts.len() == 0 {
        Seq::empty()
    } else if parts.len() == 1 {
        parts[0]
    } else {
        join_spec(parts.drop_last(), sep) + sep + parts.last()
    }
}

/// Join strings with a separator.
pub fn join(parts: &Vec<String>, sep: &str) -> (r: String)
    ensures
        r@ == join_spec(str_views(parts@), sep@),
{
    let mut r = String::new();
    let ghost views = str_views(parts@);
    let mut i: usize = 0;
    while i < parts.len()
        invariant
            0 <= i <= parts.len(),
            views == str_views(parts@),
            r@ == join_spec(views.take(i as int), sep@),
        decreases parts@.len() - i,
    {
        if i > 0 {
            r.append(sep);
        }
        r.append(parts[i].as_str());
        proof {
            assert(views.take(i as int + 1).drop_last() =~= views.take(i as int));
            assert(views.take(i as int + 1).last() == views[i as int]);
            if i == 0 {
                assert(r@ =~= join_spec(views.take(i as int + 1), sep@));
            }
        }
        i = i + 1;
    }
    proof {
        assert(views.take(parts@.len() as int) =~= views);
    }
    r
}

/// The status line of one running process:
/// `[<device_index>] <name>|<temperature>°C <gpu_util>%| <used> / <total> MB`.
pub open spec fn line_spec(r: RowView) -> Seq<char> {
    ("[")@ + dec_spec(r.device_index as nat) + ("] ")@ + r.identity.name + ("|")@ + dec_spec(
        r.temperature as nat,
    ) + ("°C ")@ + dec_spec(r.gpu_utilization as nat) + ("%| ")@ + dec_spec(r.memory.used as nat)
        + (" / ")@ + dec_spec(r.memory.total as nat) + (" MB")@
}

/// Compose one process's status line.
pub fn format_status_line(r: &ProcessRow) -> (s: String)
    ensures
        s@ == line_spec(r@),
{
    let mut s = String::new();
    s.append("[");
    let index = u64_to_dec(r.device_index as u64);
    s.append(index.as_str());
    s.append("] ");
    s.append(r.identity.name.as_str());
    s.append("|");
    let temperature = u64_to_dec(r.temperature as u64);
    s.append(temperature.as_str());
    s.append("°C ");
    let utilization = u64_to_dec(r.gpu_utilization as u64);
    s.append(utilization.as_str());
    s.append("%| ");
    let used = u64_to_dec(r.memory.used);
    s.append(used.as_str());
    s.append(" / ");
    let total = u64_to_dec(r.memory.total);
    s.append(total.as_str());
    s.append(" MB");
    proof {
        assert(s@ =~= line_spec(r@));
    }
    s
}

/// The status lines of a list of process rows, in order.
pub open spec fn lines_spec(rows: Seq<RowView>) -> Seq<Seq<char>> {
    rows.map_values(|r: RowView| line_spec(r))
}

/// The whole status body: the rows' lines joined by newlines.  Zero running
/// processes give an empty body.
pub open spec fn body_spec(rows: Seq<RowView>) -> Seq<char> {
    join_spec(lines_spec(rows), ("\n")@)
}

/// Compose the status body for one pass.
pub fn gpustat_body(rows: &Vec<ProcessRow>) -> (s: String)
    ensures
        s@ == body_spec(row_views(rows@)),
        rows@.len() == 0 ==> s@ == Seq::<char>::empty(),
{
    let mut lines: Vec<String> = Vec::new();
    let ghost views = row_views(rows@);
    let mut i: usize = 0;
    while i < rows.len()
        invariant
            0 <= i <= rows.len(),
            views == row_views(rows@),
            str_views(lines@) == lines_spec(views.take(i as int)),
        decreases rows@.len() - i,
    {
        let line = format_status_line(&rows[i]);
        let ghost prev = lines@;
        lines.push(line);
        proof {
            assert(str_views(lines@) =~= str_views(prev).push(line@));
            assert(views.take(i as int + 1) =~= views.take(i as int).push(views[i as int]));
            assert(views[i as int] == rows@[i as int]@);
            assert(lines_spec(views.take(i as int).push(views[i as int])) =~= lines_spec(
                views.take(i as int),
            ).push(line_spec(views[i as int])));
            assert(str_views(lines@) =~= lines_spec(views.take(i as int + 1)));
        }
        i = i + 1;
    }
    proof {
        assert(views.take(rows@.len() as int) =~= views);
    }
    join(&lines, "\n")
}

} // verus!
