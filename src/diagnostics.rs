//! The diagnostic filter that the setup hook publishes in the process
//! environment: comma-separated `subsystem=level` pairs.
use vstd::prelude::*;
use crate::threshold::LogThreshold;

verus! {

/// One `subsystem=level` pair of a filter.
pub struct FilterEntry {
    pub subsystem: String,
    pub level: LogThreshold,
}

pub open spec fn entry_text(e: FilterEntry) -> Seq<char> {
    e.subsystem@ + seq!['='] + e.level.spec_name()
}

/// The entries joined by commas, in order.
pub open spec fn spec_render(entries: Seq<FilterEntry>) -> Seq<char>
    decreases entries.len(),
{
    if entries.len() == 0 {
        Seq::empty()
    } else if entries.len() == 1 {
        entry_text(entries[0])
    } else {
        spec_render(entries.drop_last()) + seq![','] + entry_text(entries.last())
    }
}

pub fn render_filter(entries: &Vec<FilterEntry>) -> (r: String)
    ensures
        r@ == spec_render(entries@),
{
    let mut out = String::new();
    let mut i: usize = 0;
    while i < entries.len()
        invariant
            i <= entries.len(),
            out@ == spec_render(entries@.take(i as int)),
        decreases entries.len() - i,
    {
        proof {
            reveal_strlit(",");
            reveal_strlit("=");
        }
        assert(entries@.take(i + 1).drop_last() =~= entries@.take(i as int));
        assert(entries@.take(i + 1).last() == entries@[i as int]);
        if i > 0 {
            out.append(",");
        }
        let ghost separated = out@;
        let e = &entries[i];
        out.append(e.subsystem.as_str());
        out.append("=");
        out.append(e.level.name());
        assert(out@ =~= separated + entry_text(entries@[i as int]));
        i += 1;
    }
    assert(entries@.take(entries@.len() as int) =~= entries@);
    out
}

/// The environment key under which the filter is published.
pub open spec fn spec_diagnostic_key() -> Seq<char> {
    "RUST_LOG"@
}

/// The filter the setup hook publishes: the shell framework and the HTTP
/// capability, both at `debug`.
pub open spec fn spec_diagnostic_filter() -> Seq<char> {
    "tauri=debug,tauri_plugin_http=debug"@
}

pub fn diagnostic_key() -> (r: &'static str)
    ensures
        r@ == spec_diagnostic_key(),
{
    "RUST_LOG"
}

/// The pairs of the published filter, in order.
pub fn diagnostic_entries() -> (r: Vec<FilterEntry>)
    ensures
        r@.len() == 2,
        r@[0].subsystem@ == "tauri"@,
        r@[0].level == LogThreshold::Debug,
        r@[1].subsystem@ == "tauri_plugin_http"@,
        r@[1].level == LogThreshold::Debug,
{
    let shell = FilterEntry { subsystem: String::from_str("tauri"), level: LogThreshold::Debug };
    let http = FilterEntry {
        subsystem: String::from_str("tauri_plugin_http"),
        level: LogThreshold::Debug,
    };
    vec![shell, http]
}

/// The value written under the diagnostic key: the same literal on every call.
pub fn diagnostic_filter() -> (r: String)
    ensures
        r@ == spec_diagnostic_filter(),
{
    let entries = diagnostic_entries();
    let r = render_filter(&entries);
    proof {
        reveal_strlit("tauri");
        reveal_strlit("tauri_plugin_http");
        reveal_strlit("tauri=debug,tauri_plugin_http=debug");
        let es = entries@;
        assert(es.drop_last().len() == 1);
        assert(spec_render(es.drop_last()) == entry_text(es[0]));
        assert(r@ =~= spec_diagnostic_filter());
    }
    r
}

} // verus!
