//! Rendering of the record set as one compact JSON line: an array of
//! objects with the fields `name`, `status`, `storage`, `criticalGroupName`
//! and `remarks`, optional fields omitted entirely when absent. String
//! escaping follows the JSON rules: the quote and the backslash, the short
//! escapes for backspace, tab, newline, form feed and carriage return, and
//! `\u00XX` (lowercase hex) for the remaining control characters; all other
//! characters stand as themselves.

use crate::report::{records_view, RecordModel, StatusStorageInfo};
use crate::strutil::{
    append_i32, append_u64, hex_char, push_char, spec_hex_char, spec_int_str, spec_nat_str,
};
use vstd::prelude::*;

verus! {

/// The escaped form of one character inside a JSON string.
pub open spec fn spec_json_escape_char(c: char) -> Seq<char> {
    if c == '"' {
        seq!['\\', '"']
    } else if c == '\\' {
        seq!['\\', '\\']
    } else if c == '\u{8}' {
        seq!['\\', 'b']
    } else if c == '\t' {
        seq!['\\', 't']
    } else if c == '\n' {
        seq!['\\', 'n']
    } else if c == '\u{c}' {
        seq!['\\', 'f']
    } else if c == '\r' {
        seq!['\\', 'r']
    } else if (c as u32) < 0x20 {
        seq!['\\', 'u', '0', '0', spec_hex_char(c as u32 as int / 16), spec_hex_char(
            c as u32 as int % 16,
        )]
    } else {
        seq![c]
    }
}

/// The concatenation of the escaped forms of all characters.
pub open spec fn spec_json_escape(s: Seq<char>) -> Seq<char>
    decreases s.len(),
{
    if s.len() == 0 {
        Seq::empty()
    } else {
        spec_json_escape(s.drop_last()) + spec_json_escape_char(s.last())
    }
}

/// A JSON string literal: the escaped characters wrapped in double quotes.
pub open spec fn spec_json_string(s: Seq<char>) -> Seq<char> {
    seq!['"'] + spec_json_escape(s) + seq!['"']
}

fn append_escaped_char(out: &mut String, c: char)
    ensures
        final(out)@ == old(out)@ + spec_json_escape_char(c),
{
    if c == '"' {
        push_char(out, '\\');
        push_char(out, '"');
    } else if c == '\\' {
        push_char(out, '\\');
        push_char(out, '\\');
    } else if c == '\u{8}' {
        push_char(out, '\\');
        push_char(out, 'b');
    } else if c == '\t' {
        push_char(out, '\\');
        push_char(out, 't');
    } else if c == '\n' {
        push_char(out, '\\');
        push_char(out, 'n');
    } else if c == '\u{c}' {
        push_char(out, '\\');
        push_char(out, 'f');
    } else if c == '\r' {
        push_char(out, '\\');
        push_char(out, 'r');
    } else if (c as u32) < 0x20 {
        push_char(out, '\\');
        push_char(out, 'u');
        push_char(out, '0');
        push_char(out, '0');
        push_char(out, hex_char((c as u32 / 16) as u8));
        push_char(out, hex_char((c as u32 % 16) as u8));
    } else {
        push_char(out, c);
    }
    proof {
        assert(final(out)@ =~= old(out)@ + spec_json_escape_char(c));
    }
}

/// Append `s` to `out` as a JSON string literal, escaped and quoted.
pub fn append_json_string(out: &mut String, s: &str)
    ensures
        final(out)@ == old(out)@ + spec_json_string(s@),
{
    push_char(out, '"');
    let n = s.unicode_len();
    let mut i: usize = 0;
    proof {
        assert(s@.take(0) =~= Seq::<char>::empty());
        assert(out@ =~= old(out)@ + seq!['"'] + spec_json_escape(s@.take(0)));
    }
    while i < n
        invariant
            i <= n,
            n == s@.len(),
            out@ == old(out)@ + seq!['"'] + spec_json_escape(s@.take(i as int)),
        decreases n - i,
    {
        let c = s.get_char(i);
        append_escaped_char(out, c);
        i = i + 1;
        proof {
            assert(s@.take(i as int).drop_last() =~= s@.take(i - 1));
            assert(s@.take(i as int).last() == s@[i - 1]);
            assert(out@ =~= old(out)@ + seq!['"'] + spec_json_escape(s@.take(i as int)));
        }
    }
    push_char(out, '"');
    proof {
        assert(s@.take(n as int) =~= s@);
        assert(final(out)@ =~= old(out)@ + spec_json_string(s@));
    }
}

/// The JSON object for a storage-usage value.
pub open spec fn spec_render_storage(st: (u64, u64)) -> Seq<char> {
    "{\"used\":"@ + spec_nat_str(st.0 as nat) + ",\"total\":"@ + spec_nat_str(st.1 as nat) + "}"@
}

/// The JSON object for one status record: `name` and `status` always, the
/// optional fields only when present.
#[verifier::opaque]
pub open spec fn spec_render_record(r: RecordModel) -> Seq<char> {
    "{\"name\":"@ + spec_json_string(r.name) + ",\"status\":"@ + spec_int_str(r.status as int) + (
    match r.storage {
        Some(st) => ",\"storage\":"@ + spec_render_storage(st),
        None => Seq::empty(),
    }) + (match r.critical_group_name {
        Some(g) => ",\"criticalGroupName\":"@ + spec_json_string(g),
        None => Seq::empty(),
    }) + (match r.remarks {
        Some(m) => ",\"remarks\":"@ + spec_json_string(m),
        None => Seq::empty(),
    }) + "}"@
}

/// Append the JSON object for one record to `out`.
#[verifier::rlimit(80)]
pub fn append_record(out: &mut String, r: &StatusStorageInfo)
    ensures
        final(out)@ == old(out)@ + spec_render_record(r@),
{
    out.append("{\"name\":");
    append_json_string(out, r.name.as_str());
    out.append(",\"status\":");
    append_i32(out, r.status);
    proof {
        assert(out@ =~= old(out)@ + ("{\"name\":"@ + spec_json_string(r@.name) + ",\"status\":"@
            + spec_int_str(r@.status as int)));
    }
    let ghost head = out@;
    match &r.storage {
        Some(st) => {
            out.append(",\"storage\":");
            out.append("{\"used\":");
            append_u64(out, st.used());
            out.append(",\"total\":");
            append_u64(out, st.total());
            out.append("}");
            proof {
                assert(out@ =~= head + (",\"storage\":"@ + spec_render_storage(st@)));
            }
        },
        None => {},
    }
    let ghost with_storage = out@;
    proof {
        assert(with_storage == head + (match r@.storage {
            Some(st) => ",\"storage\":"@ + spec_render_storage(st),
            None => Seq::<char>::empty(),
        })) by {
            if r@.storage is None {
                assert(head + Seq::<char>::empty() =~= head);
            }
        }
    }
    match &r.critical_group_name {
        Some(g) => {
            out.append(",\"criticalGroupName\":");
            append_json_string(out, g.as_str());
        },
        None => {},
    }
    let ghost with_group = out@;
    proof {
        assert(with_group == with_storage + (match r@.critical_group_name {
            Some(g) => ",\"criticalGroupName\":"@ + spec_json_string(g),
            None => Seq::<char>::empty(),
        })) by {
            if r@.critical_group_name is None {
                assert(with_storage + Seq::<char>::empty() =~= with_storage);
            }
        }
    }
    match &r.remarks {
        Some(m) => {
            out.append(",\"remarks\":");
            append_json_string(out, m.as_str());
        },
        None => {},
    }
    let ghost with_remarks = out@;
    proof {
        assert(with_remarks == with_group + (match r@.remarks {
            Some(m) => ",\"remarks\":"@ + spec_json_string(m),
            None => Seq::<char>::empty(),
        })) by {
            if r@.remarks is None {
                assert(with_group + Seq::<char>::empty() =~= with_group);
            }
        }
    }
    out.append("}");
    proof {
        reveal(spec_render_record);
        assert(final(out)@ =~= old(out)@ + spec_render_record(r@));
    }
}

/// The bodies of all record objects, separated by commas.
pub open spec fn spec_render_records(rs: Seq<RecordModel>) -> Seq<char>
    decreases rs.len(),
{
    if rs.len() == 0 {
        Seq::empty()
    } else if rs.len() == 1 {
        spec_render_record(rs[0])
    } else {
        spec_render_records(rs.drop_last()) + seq![','] + spec_render_record(rs.last())
    }
}

/// The whole report: the record objects as one JSON array.
pub open spec fn spec_render_report(rs: Seq<RecordModel>) -> Seq<char> {
    seq!['['] + spec_render_records(rs) + seq![']']
}

/// Render the full record set as one compact JSON line. Total: every record
/// set has a rendering, so the run has no serialization failure path.
#[verifier::rlimit(80)]
pub fn render_report(records: &Vec<StatusStorageInfo>) -> (r: String)
    ensures
        r@ == spec_render_report(records_view(records@)),
{
    let ghost model = records_view(records@);
    let mut out = String::new();
    push_char(&mut out, '[');
    let mut i: usize = 0;
    proof {
        assert(model.take(0) =~= Seq::<RecordModel>::empty());
        assert(out@ =~= seq!['['] + spec_render_records(model.take(0)));
    }
    while i < records.len()
        invariant
            i <= records@.len(),
            model == records_view(records@),
            out@ == seq!['['] + spec_render_records(model.take(i as int)),
        decreases records@.len() - i,
    {
        if i > 0 {
            push_char(&mut out, ',');
        }
        append_record(&mut out, &records[i]);
        i = i + 1;
        proof {
            assert(model.take(i as int).drop_last() =~= model.take(i - 1));
            assert(model.take(i as int).last() == model[i - 1]);
            assert(model[i - 1] == records@[i - 1]@);
            assert(out@ =~= seq!['['] + spec_render_records(model.take(i as int)));
        }
    }
    push_char(&mut out, ']');
    proof {
        assert(model.take(records@.len() as int) =~= model);
        assert(out@ =~= spec_render_report(model));
    }
    out
}

} // verus!
