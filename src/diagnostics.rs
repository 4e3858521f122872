//! The diagnostic log drain: a movable start index over the graphics
//! backend's stored messages, and their decoding into records.

use vstd::prelude::*;
use vstd::string::StringExecFns;
use vstd::utf8::{decode_utf8, valid_utf8};

use crate::text::{decimal, decimal_text, join, lossy_text, utf8_lossy, utf8_strict};

verus! {

/// One message as the backend stores it. `description` is `None` when the
/// backend reports an empty message.
#[derive(Debug, Clone)]
pub struct InfoMessage {
    pub id: i32,
    pub category: i32,
    pub severity: i32,
    pub description: Option<Vec<u8>>,
}

impl View for InfoMessage {
    type V = (i32, i32, i32, Option<Seq<u8>>);

    open spec fn view(&self) -> Self::V {
        (
            self.id,
            self.category,
            self.severity,
            match self.description {
                Some(d) => Some(d@),
                None => None,
            },
        )
    }
}

/// A decoded message: id, category name, severity name (absent when the
/// message is empty) and description text.
#[derive(Debug, Clone)]
pub struct DiagnosticRecord {
    pub id: i32,
    pub category: String,
    pub severity: Option<String>,
    pub description: String,
}

impl View for DiagnosticRecord {
    type V = (i32, Seq<char>, Option<Seq<char>>, Seq<char>);

    open spec fn view(&self) -> Self::V {
        (
            self.id,
            self.category@,
            match self.severity {
                Some(s) => Some(s@),
                None => None,
            },
            self.description@,
        )
    }
}

/// The name of message category `c`, for the categories the backend defines.
pub open spec fn category_name(c: int) -> Option<Seq<char>> {
    if c == 0 { Some("UNKNOWN"@) }
    else if c == 1 { Some("MISCELLANEOUS"@) }
    else if c == 2 { Some("INITIALIZATION"@) }
    else if c == 3 { Some("CLEANUP"@) }
    else if c == 4 { Some("COMPILATION"@) }
    else if c == 5 { Some("STATE_CREATION"@) }
    else if c == 6 { Some("STATE_SETTING"@) }
    else if c == 7 { Some("STATE_GETTING"@) }
    else if c == 8 { Some("RESOURCE_MANIPULATION"@) }
    else if c == 9 { Some("EXECUTION"@) }
    else if c == 10 { Some("SHADER"@) }
    else { None }
}

/// The name of severity `s`, for the severities the backend defines.
pub open spec fn severity_name(s: int) -> Option<Seq<char>> {
    if s == 0 { Some("CORRUPTION"@) }
    else if s == 1 { Some("ERROR"@) }
    else if s == 2 { Some("WARNING"@) }
    else if s == 3 { Some("INFO"@) }
    else if s == 4 { Some("MESSAGE"@) }
    else { None }
}

/// A name from the table, or the raw number in decimal.
pub open spec fn name_or_number(name: Option<Seq<char>>, n: int) -> Seq<char> {
    match name {
        Some(t) => t,
        None => decimal_text(n),
    }
}

/// The text of a message description: the decoded text when it is valid
/// UTF-8, a lossy copy behind a note when it is not, and a note when the
/// message is empty.
pub open spec fn description_text(d: Option<Seq<u8>>) -> Seq<char> {
    match d {
        None => "No message was found"@,
        Some(b) => if valid_utf8(b) {
            decode_utf8(b)
        } else {
            "Message found but is corrupted [msglength: "@ + decimal_text(b.len() as int) + "]\n"@
                + lossy_text(b)
        },
    }
}

/// The record a stored message decodes to.
pub open spec fn record_of(m: (i32, i32, i32, Option<Seq<u8>>)) -> (i32, Seq<char>, Option<Seq<char>>, Seq<char>) {
    (
        m.0,
        name_or_number(category_name(m.1 as int), m.1 as int),
        match m.3 {
            Some(_) => Some(name_or_number(severity_name(m.2 as int), m.2 as int)),
            None => None,
        },
        description_text(m.3),
    )
}

/// Whether some message of `kept` has id `id`.
pub open spec fn has_id(kept: Seq<(i32, i32, i32, Option<Seq<u8>>)>, id: i32) -> bool {
    exists|k: int| 0 <= k < kept.len() && (#[trigger] kept[k]).0 == id
}

/// The messages of `log` at indices `start..end`, each id kept at its
/// first occurrence only, in log order.
pub open spec fn drained(log: Seq<(i32, i32, i32, Option<Seq<u8>>)>, start: int, end: int) -> Seq<(i32, i32, i32, Option<Seq<u8>>)>
    decreases end - start,
{
    if end <= start {
        Seq::empty()
    } else {
        let kept = drained(log, start, end - 1);
        if has_id(kept, log[end - 1].0) {
            kept
        } else {
            kept.push(log[end - 1])
        }
    }
}

fn category_label(c: i32) -> (r: Option<&'static str>)
    ensures
        match r {
            Some(t) => category_name(c as int) == Some(t@),
            None => category_name(c as int) is None,
        },
{
    if c == 0 { Some("UNKNOWN") }
    else if c == 1 { Some("MISCELLANEOUS") }
    else if c == 2 { Some("INITIALIZATION") }
    else if c == 3 { Some("CLEANUP") }
    else if c == 4 { Some("COMPILATION") }
    else if c == 5 { Some("STATE_CREATION") }
    else if c == 6 { Some("STATE_SETTING") }
    else if c == 7 { Some("STATE_GETTING") }
    else if c == 8 { Some("RESOURCE_MANIPULATION") }
    else if c == 9 { Some("EXECUTION") }
    else if c == 10 { Some("SHADER") }
    else { None }
}

fn severity_label(s: i32) -> (r: Option<&'static str>)
    ensures
        match r {
            Some(t) => severity_name(s as int) == Some(t@),
            None => severity_name(s as int) is None,
        },
{
    if s == 0 { Some("CORRUPTION") }
    else if s == 1 { Some("ERROR") }
    else if s == 2 { Some("WARNING") }
    else if s == 3 { Some("INFO") }
    else if s == 4 { Some("MESSAGE") }
    else { None }
}

fn label_or_number(label: Option<&'static str>, n: i32) -> (r: String)
    ensures
        r@ == name_or_number(
            match label {
                Some(t) => Some(t@),
                None => None,
            },
            n as int,
        ),
{
    match label {
        Some(t) => String::from_str(t),
        None => decimal(n as i128),
    }
}

/// Decodes the description bytes of a message.
pub fn decode_description(d: &Option<Vec<u8>>) -> (r: String)
    ensures
        r@ == description_text(
            match d {
                Some(b) => Some(b@),
                None => None,
            },
        ),
{
    match d {
        None => String::from_str("No message was found"),
        Some(b) => match utf8_strict(b.as_slice()) {
            Some(s) => s,
            None => {
                let s = join(String::from_str("Message found but is corrupted [msglength: "), decimal(b.len() as i128).as_str());
                let s = join(s, "]\n");
                join(s, utf8_lossy(b.as_slice()).as_str())
            },
        },
    }
}

/// Decodes one stored message.
pub fn decode_message(m: &InfoMessage) -> (r: DiagnosticRecord)
    ensures
        r@ == record_of(m@),
{
    let severity = match &m.description {
        Some(_) => Some(label_or_number(severity_label(m.severity), m.severity)),
        None => None,
    };
    DiagnosticRecord {
        id: m.id,
        category: label_or_number(category_label(m.category), m.category),
        severity,
        description: decode_description(&m.description),
    }
}

/// The printed lines of a record: its id and category, then its severity
/// and description, or only a description note for an empty message, then
/// a blank separator.
pub open spec fn record_lines(r: (i32, Seq<char>, Option<Seq<char>>, Seq<char>)) -> Seq<Seq<char>> {
    let head = seq!["[MSG_ID] "@ + decimal_text(r.0 as int), "[CATEGORY_ID] "@ + r.1];
    let body = match r.2 {
        Some(s) => seq!["[SEVERITY] "@ + s, "[DESCRIPTION]\n"@ + r.3],
        None => seq!["[DESCRIPTION] "@ + r.3],
    };
    head + body + seq!["\n"@]
}

impl DiagnosticRecord {
    /// The record as printed lines.
    pub fn lines(&self) -> (r: Vec<String>)
        ensures
            r@.map_values(|s: String| s@) == record_lines(self@),
    {
        let mut lines: Vec<String> = Vec::new();
        lines.push(join(String::from_str("[MSG_ID] "), decimal(self.id as i128).as_str()));
        lines.push(join(String::from_str("[CATEGORY_ID] "), self.category.as_str()));
        match &self.severity {
            Some(s) => {
                lines.push(join(String::from_str("[SEVERITY] "), s.as_str()));
                lines.push(join(String::from_str("[DESCRIPTION]\n"), self.description.as_str()));
            },
            None => {
                lines.push(join(String::from_str("[DESCRIPTION] "), self.description.as_str()));
            },
        }
        lines.push(String::from_str("\n"));
        assert(lines@.map_values(|s: String| s@) =~= record_lines(self@));
        lines
    }
}

/// The start of the not yet reported part of the backend's message log.
#[derive(Debug, Clone, Copy, PartialEq, Eq, Structural)]
pub struct Manager {
    pub start_index: u64,
}

impl Manager {
    /// A drain that reports the whole log.
    pub fn new() -> (r: Manager)
        ensures
            r.start_index == 0,
    {
        Manager { start_index: 0 }
    }

    /// Marks the `stored_count` messages stored now as reported.
    pub fn mark(&mut self, stored_count: u64)
        ensures
            final(self).start_index == stored_count,
    {
        self.start_index = stored_count;
    }

    /// `r` holds the records of the messages of `log` from the start
    /// index on, each id once.
    pub open spec fn drains(&self, log: Seq<InfoMessage>, r: Seq<DiagnosticRecord>) -> bool {
        r.map_values(|x: DiagnosticRecord| x@) == drained(
            log.map_values(|m: InfoMessage| m@),
            self.start_index as int,
            log.len() as int,
        ).map_values(|m: (i32, i32, i32, Option<Seq<u8>>)| record_of(m))
    }

    /// Decodes the messages of the backend log `log` (all stored messages,
    /// oldest first) from the start index on, keeping the first message of
    /// each id. Reading does not move the start index.
    pub fn get_messages(&self, log: &Vec<InfoMessage>) -> (r: Vec<DiagnosticRecord>)
        ensures
            self.drains(log@, r@),
    {
        let ghost lv = log@.map_values(|m: InfoMessage| m@);
        let mut records: Vec<DiagnosticRecord> = Vec::new();
        let mut i: usize = if self.start_index < log.len() as u64 {
            self.start_index as usize
        } else {
            log.len()
        };
        assert(drained(lv, self.start_index as int, i as int) =~= Seq::empty());
        while i < log.len()
            invariant
                i <= log.len(),
                self.start_index <= i || i == log.len(),
                lv == log@.map_values(|m: InfoMessage| m@),
                records@.map_values(|x: DiagnosticRecord| x@) == drained(
                    lv,
                    self.start_index as int,
                    i as int,
                ).map_values(|m: (i32, i32, i32, Option<Seq<u8>>)| record_of(m)),
            decreases log.len() - i,
        {
            let m = &log[i];
            let ghost kept = drained(lv, self.start_index as int, i as int);
            assert(records@.map_values(|x: DiagnosticRecord| x@).len() == records@.len());
            let mut seen = false;
            let mut k: usize = 0;
            while k < records.len()
                invariant
                    k <= records@.len() == kept.len(),
                    records@.map_values(|x: DiagnosticRecord| x@) == kept.map_values(
                        |m: (i32, i32, i32, Option<Seq<u8>>)| record_of(m),
                    ),
                    seen <==> exists|j: int| 0 <= j < k && (#[trigger] kept[j]).0 == m.id,
                decreases records.len() - k,
            {
                assert(records@.map_values(|x: DiagnosticRecord| x@)[k as int] == record_of(kept[k as int]));
                if records[k].id == m.id {
                    seen = true;
                }
                k = k + 1;
            }
            assert(lv[i as int] == m@);
            assert(seen == has_id(kept, lv[i as int].0));
            if !seen {
                let rec = decode_message(m);
                let ghost before = records@;
                records.push(rec);
                assert(records@.map_values(|x: DiagnosticRecord| x@) =~= before.map_values(
                    |x: DiagnosticRecord| x@,
                ).push(rec@));
                assert(kept.push(lv[i as int]).map_values(
                    |m: (i32, i32, i32, Option<Seq<u8>>)| record_of(m),
                ) =~= kept.map_values(|m: (i32, i32, i32, Option<Seq<u8>>)| record_of(m)).push(
                    record_of(lv[i as int]),
                ));
            }
            i = i + 1;
        }
        records
    }
}

/// A drain right after a mark at the current log length reports nothing.
pub proof fn lemma_mark_hides_reported(m: Manager, log: Seq<InfoMessage>, r: Seq<DiagnosticRecord>)
    requires
        m.start_index == log.len(),
        m.drains(log, r),
    ensures
        r.len() == 0,
{
    assert(r.map_values(|x: DiagnosticRecord| x@).len() == r.len());
}

/// After a mark, one new backend message is reported as exactly one record:
/// its own.
pub proof fn lemma_mark_then_one(m: Manager, log: Seq<InfoMessage>, e: InfoMessage, r: Seq<DiagnosticRecord>)
    requires
        m.start_index == log.len(),
        m.drains(log.push(e), r),
    ensures
        r.len() == 1,
        r[0]@ == record_of(e@),
{
    let lv = log.push(e).map_values(|x: InfoMessage| x@);
    let start = m.start_index as int;
    assert(drained(lv, start, start) =~= Seq::empty());
    assert(!has_id(Seq::empty(), lv[start].0));
    assert(drained(lv, start, start + 1) =~= seq![lv[start]]);
    assert(lv[start] == e@);
    assert(r.map_values(|x: DiagnosticRecord| x@).len() == r.len());
    assert(r.map_values(|x: DiagnosticRecord| x@)[0] == r[0]@);
}

/// Draining does not consume: two drains of the same log without a mark in
/// between report the same records.
pub proof fn lemma_drain_repeatable(
    m: Manager,
    log: Seq<InfoMessage>,
    first: Seq<DiagnosticRecord>,
    second: Seq<DiagnosticRecord>,
)
    requires
        m.drains(log, first),
        m.drains(log, second),
    ensures
        first.len() == second.len(),
        forall|i: int| 0 <= i < first.len() ==> (#[trigger] first[i])@ == second[i]@,
{
    assert(first.map_values(|x: DiagnosticRecord| x@).len() == first.len());
    assert(second.map_values(|x: DiagnosticRecord| x@).len() == second.len());
    assert forall|i: int| 0 <= i < first.len() implies (#[trigger] first[i])@ == second[i]@ by {
        assert(first.map_values(|x: DiagnosticRecord| x@)[i] == first[i]@);
        assert(second.map_values(|x: DiagnosticRecord| x@)[i] == second[i]@);
    }
}

} // verus!
