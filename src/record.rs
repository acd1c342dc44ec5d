//! Test-run records and the ordered result set they form.
use vstd::prelude::*;
use vstd::string::StringExecFns;
use crate::status::{parse_status, status_name, Status};

verus! {

/// One test run as read from a result file: name, raw status text and raw
/// duration text. The status may name no known status; the duration may not
/// be a number.
#[derive(Debug)]
pub struct TestRecord {
    pub name: String,
    pub status: String,
    pub duration: String,
}

/// The mathematical model of a record.
pub struct RecordView {
    pub name: Seq<char>,
    pub status: Seq<char>,
    pub duration: Seq<char>,
}

impl View for TestRecord {
    type V = RecordView;

    open spec fn view(&self) -> RecordView {
        RecordView { name: self.name@, status: self.status@, duration: self.duration@ }
    }
}

impl Clone for TestRecord {
    fn clone(&self) -> (r: Self)
        ensures
            r@ == self@,
    {
        TestRecord {
            name: self.name.clone(),
            status: self.status.clone(),
            duration: self.duration.clone(),
        }
    }
}

/// The models of a sequence of records.
pub open spec fn records_view(s: Seq<TestRecord>) -> Seq<RecordView> {
    s.map_values(|r: TestRecord| r@)
}

/// The known status of a record, if its status text names one.
pub open spec fn record_status(r: RecordView) -> Option<Status> {
    parse_status(r.status)
}

impl TestRecord {
    /// A record from its three fields.
    pub fn new(name: String, status: String, duration: String) -> (r: TestRecord)
        ensures
            r@ == (RecordView { name: name@, status: status@, duration: duration@ }),
    {
        TestRecord { name, status, duration }
    }

    /// The known status of this record, if its status text names one.
    pub fn parsed_status(&self) -> (r: Option<Status>)
        ensures
            r == record_status(self@),
    {
        Status::parse(self.status.as_str())
    }

    /// The label of this record's status badge: the status's name, or
    /// `Unrecognized` when the status text names no known status.
    pub fn status_label(&self) -> (r: String)
        ensures
            r@ == match record_status(self@) {
                Some(st) => status_name(st),
                None => "Unrecognized"@,
            },
    {
        match self.parsed_status() {
            Some(st) => st.name(),
            None => String::from_str("Unrecognized"),
        }
    }

    /// The color of this record's status badge: the status's color, or white
    /// when the status text names no known status.
    pub fn status_color(&self) -> (r: &'static str)
        ensures
            r@ == match record_status(self@) {
                Some(st) => st.color_spec(),
                None => "#FFF"@,
            },
    {
        match self.parsed_status() {
            Some(st) => st.color(),
            None => "#FFF",
        }
    }
}

/// Taking one more record of `s` extends the models by that record's model.
pub proof fn lemma_records_view_take(s: Seq<TestRecord>, i: int)
    requires
        0 <= i < s.len(),
    ensures
        records_view(s.take(i + 1)) == records_view(s.take(i)).push(s[i]@),
        records_view(s.take(i + 1)).drop_last() == records_view(s.take(i)),
        records_view(s.take(i + 1)).last() == s[i]@,
{
    assert(records_view(s.take(i + 1)) =~= records_view(s.take(i)).push(s[i]@));
    assert(records_view(s.take(i + 1)).drop_last() =~= records_view(s.take(i)));
}

/// All of `s` is the prefix of full length.
pub proof fn lemma_records_view_full(s: Seq<TestRecord>)
    ensures
        records_view(s.take(s.len() as int)) == records_view(s),
        records_view(s).len() == s.len(),
{
    assert(s.take(s.len() as int) =~= s);
}

} // verus!
