//! Incident reports and their batching into mail digests.
use vstd::prelude::*;

verus! {

/// Seconds during which further reports join the first one of a batch.
pub const COLLECTION_WINDOW_SECS: u64 = 30;
/// Attempts at sending one digest.
pub const MAIL_ATTEMPTS: u32 = 5;
/// Largest distance from the epoch, in seconds, of a time that can be shown.
pub const MAX_TIMESTAMP_SECS: i64 = 8000000000000;

/// A UTC time: seconds since the Unix epoch and the nanoseconds within the second.
#[derive(Clone, Copy, Debug, PartialEq, Eq, Structural)]
pub struct Timestamp {
    pub secs: i64,
    pub nanos: u32,
}

impl Timestamp {
    /// Within the range of calendar dates that can be written out.
    pub open spec fn wf(self) -> bool {
        -MAX_TIMESTAMP_SECS <= self.secs <= MAX_TIMESTAMP_SECS && self.nanos < 1000000000
    }

    /// The time, if it lies within the range that can be written out.
    pub fn new(secs: i64, nanos: u32) -> (r: Option<Timestamp>)
        ensures
            r is Some <==> (Timestamp { secs, nanos }).wf(),
            r matches Some(t) ==> t == (Timestamp { secs, nanos }),
    {
        if -MAX_TIMESTAMP_SECS <= secs && secs <= MAX_TIMESTAMP_SECS && nanos < 1000000000 {
            Some(Timestamp { secs, nanos })
        } else {
            None
        }
    }
}

/// How chrono writes a UTC time ("2015-05-15 00:00:00 UTC").
pub uninterp spec fn utc_text_of(secs: i64, nanos: u32) -> Seq<char>;

/// Relies on chrono's DateTime::<Utc>::from_timestamp, which accepts every
/// time within the range (years up to about 262,000 either side of the
/// epoch, nanoseconds below one second), and on its Display, whose text
/// depends on the time alone.
#[verifier::external_body]
fn utc_text(secs: i64, nanos: u32) -> (r: String)
    requires
        (Timestamp { secs, nanos }).wf(),
    ensures
        r@ == utc_text_of(secs, nanos),
{
    match chrono::DateTime::from_timestamp(secs, nanos) {
        Some(t) => t.to_string(),
        None => String::new(),
    }
}

/// The text of a time.
pub open spec fn time_text(t: Timestamp) -> Seq<char> {
    utc_text_of(t.secs, t.nanos)
}

/// A failure summary handed to the mailer.
pub struct MailRequest {
    /// The lines describing the failure, in order.
    pub err_log: Vec<String>,
    /// No restart follows this incident.
    pub final_incident: bool,
    pub time: Timestamp,
}

/// A composed mail.
pub struct Digest {
    pub subject: String,
    pub body: String,
    /// Whether a report of the batch was final.
    pub is_final: bool,
}

/// The cause lines of a report, each on a line of its own.
pub open spec fn causes_text(log: Seq<String>) -> Seq<char>
    decreases log.len(),
{
    if log.len() == 0 {
        "&emsp;"@
    } else {
        causes_text(log.drop_last()) + "<br>&emsp;"@ + log.last()@
    }
}

/// The section of the first report of a digest.
pub open spec fn first_section(name: Seq<char>, r: MailRequest) -> Seq<char> {
    "On "@ + time_text(r.time) + ", the Minecraft server \""@ + name
        + "\" encountered an incident.<br><br>&emsp;Error report:<br>"@ + causes_text(r.err_log@)
        + "<br><br>"@
}

/// The section of a later report of a digest.
pub open spec fn later_section(r: MailRequest) -> Seq<char> {
    "Additionally, on "@ + time_text(r.time)
        + ", another incident occurred.<br><br>&emsp;Error report:<br>"@ + causes_text(r.err_log@)
        + "<br><br>"@
}

/// The sections of the reports after the first, in order.
pub open spec fn later_sections(rs: Seq<MailRequest>) -> Seq<char>
    decreases rs.len(),
{
    if rs.len() == 0 {
        Seq::empty()
    } else {
        later_sections(rs.drop_last()) + later_section(rs.last())
    }
}

/// Whether a report of the batch is final.
pub open spec fn any_final(rs: Seq<MailRequest>) -> bool {
    exists|i: int| 0 <= i < rs.len() && (#[trigger] rs[i]).final_incident
}

/// The subject of a digest.
pub open spec fn digest_subject(name: Seq<char>, is_final: bool) -> Seq<char> {
    if is_final {
        "URGENT - "@ + name + " - Server Manager stopped after incident"@
    } else {
        name + " - Incident report"@
    }
}

/// The body of a digest of a non-empty batch.
pub open spec fn digest_body(name: Seq<char>, rs: Seq<MailRequest>) -> Seq<char> {
    first_section(name, rs[0]) + later_sections(rs.subrange(1, rs.len() as int)) + (if any_final(
        rs,
    ) {
        "<b>After this incident, the server manager stopped.</b><br>"@
    } else {
        Seq::empty()
    }) + "End of report."@
}

/// Whether every report of the batch has a time that can be written out.
pub open spec fn times_wf(rs: Seq<MailRequest>) -> bool {
    forall|i: int| 0 <= i < rs.len() ==> (#[trigger] rs[i]).time.wf()
}

/// Whether `d` is the digest of the batch `rs`.
pub open spec fn is_digest_of(d: Digest, name: Seq<char>, rs: Seq<MailRequest>) -> bool {
    &&& d.is_final == any_final(rs)
    &&& d.subject@ == digest_subject(name, any_final(rs))
    &&& d.body@ == digest_body(name, rs)
}

fn push_causes(body: &mut String, log: &Vec<String>)
    ensures
        final(body)@ == old(body)@ + causes_text(log@),
{
    body.append("&emsp;");
    let mut i: usize = 0;
    while i < log.len()
        invariant
            0 <= i <= log.len(),
            body@ == old(body)@ + causes_text(log@.subrange(0, i as int)),
        decreases log.len() - i,
    {
        proof {
            let s = log@.subrange(0, i as int + 1);
            assert(s.drop_last() =~= log@.subrange(0, i as int));
        }
        body.append("<br>&emsp;");
        body.append(log[i].as_str());
        i = i + 1;
        assert(body@ =~= old(body)@ + causes_text(log@.subrange(0, i as int)));
    }
    assert(log@.subrange(0, log.len() as int) =~= log@);
}

/// The manager's own record of the batch it is collecting.
pub struct MailManager {
    /// The server's name, shown in every mail.
    pub name: String,
    /// The reports of the current batch, in arrival order.
    pub batch: Vec<MailRequest>,
}

impl MailManager {
    /// Every report in the batch has a time that can be written out.
    pub open spec fn wf(self) -> bool {
        times_wf(self.batch@)
    }

    /// A manager for the server named `name`, with no batch.
    pub fn new(name: String) -> (r: Self)
        ensures
            r.name@ == name@,
            r.batch@.len() == 0,
            r.wf(),
    {
        MailManager { name, batch: Vec::new() }
    }

    /// Starts a batch with the first report; collection lasts for the returned seconds.
    pub fn begin(&mut self, report: MailRequest) -> (secs: u64)
        requires
            old(self).wf(),
            report.time.wf(),
        ensures
            final(self).wf(),
            final(self).name == old(self).name,
            final(self).batch@ == seq![report],
            secs == COLLECTION_WINDOW_SECS,
    {
        self.batch = vec![report];
        COLLECTION_WINDOW_SECS
    }

    /// Adds a report that arrived during the collection window.
    pub fn absorb(&mut self, report: MailRequest)
        requires
            old(self).wf(),
            report.time.wf(),
        ensures
            final(self).wf(),
            final(self).name == old(self).name,
            final(self).batch@ == old(self).batch@.push(report),
    {
        self.batch.push(report);
    }

    /// Composes the digest of the batch and empties the batch.
    pub fn compose(&mut self) -> (d: Digest)
        requires
            old(self).wf(),
            old(self).batch@.len() > 0,
        ensures
            final(self).wf(),
            final(self).name == old(self).name,
            final(self).batch@.len() == 0,
            is_digest_of(d, old(self).name@, old(self).batch@),
    {
        let rs = &self.batch;
        let name = self.name.as_str();
        let mut is_final = false;
        let mut k: usize = 0;
        while k < rs.len()
            invariant
                0 <= k <= rs.len(),
                is_final <==> exists|i: int| 0 <= i < k && (#[trigger] rs@[i]).final_incident,
            decreases rs.len() - k,
        {
            if rs[k].final_incident {
                is_final = true;
            }
            k = k + 1;
        }
        let subject = if is_final {
            let mut s = "URGENT - ".to_string();
            s.append(name);
            s.append(" - Server Manager stopped after incident");
            s
        } else {
            let mut s = name.to_string();
            s.append(" - Incident report");
            s
        };
        let mut body = "On ".to_string();
        assert(rs@[0].time.wf());
        body.append(utc_text(rs[0].time.secs, rs[0].time.nanos).as_str());
        body.append(", the Minecraft server \"");
        body.append(name);
        body.append("\" encountered an incident.<br><br>&emsp;Error report:<br>");
        push_causes(&mut body, &rs[0].err_log);
        body.append("<br><br>");
        assert(body@ =~= first_section(name@, rs@[0]));
        let mut i: usize = 1;
        while i < rs.len()
            invariant
                1 <= i <= rs.len(),
                times_wf(rs@),
                body@ == first_section(name@, rs@[0]) + later_sections(rs@.subrange(1, i as int)),
            decreases rs.len() - i,
        {
            proof {
                let s = rs@.subrange(1, i as int + 1);
                assert(s.drop_last() =~= rs@.subrange(1, i as int));
                assert(s.last() == rs@[i as int]);
                assert(rs@[i as int].time.wf());
            }
            body.append("Additionally, on ");
            body.append(utc_text(rs[i].time.secs, rs[i].time.nanos).as_str());
            body.append(", another incident occurred.<br><br>&emsp;Error report:<br>");
            push_causes(&mut body, &rs[i].err_log);
            body.append("<br><br>");
            i = i + 1;
            assert(body@ =~= first_section(name@, rs@[0]) + later_sections(
                rs@.subrange(1, i as int),
            ));
        }
        let ghost before_end = body@;
        if is_final {
            body.append("<b>After this incident, the server manager stopped.</b><br>");
        } else {
            proof { reveal_strlit(""); }
            assert(body@ =~= before_end + Seq::<char>::empty());
        }
        body.append("End of report.");
        assert(body@ =~= digest_body(name@, rs@));
        let d = Digest { subject, body, is_final };
        self.batch = Vec::new();
        d
    }
}

/// The batch after each of `rs` is absorbed, in order, into `batch`.
pub open spec fn absorbed_all(batch: Seq<MailRequest>, rs: Seq<MailRequest>) -> Seq<MailRequest>
    decreases rs.len(),
{
    if rs.len() == 0 {
        batch
    } else {
        absorbed_all(batch, rs.drop_last()).push(rs.last())
    }
}

/// Reports that arrive during the collection window after a first report
/// all land, in arrival order, in the one digest composed from that batch:
/// the first report's section, then one section per later report. A report
/// that arrives once the digest is composed (the batch then being empty)
/// starts a batch of its own.
pub proof fn lemma_batching(
    name: Seq<char>,
    first: MailRequest,
    later: Seq<MailRequest>,
    next: MailRequest,
)
    ensures
        absorbed_all(seq![first], later) == seq![first] + later,
        digest_body(name, seq![first] + later) == first_section(name, first) + later_sections(later)
            + (if any_final(seq![first] + later) {
            "<b>After this incident, the server manager stopped.</b><br>"@
        } else {
            Seq::empty()
        }) + "End of report."@,
        any_final(seq![first] + later) <==> first.final_incident || any_final(later),
        absorbed_all(seq![next], Seq::empty()) == seq![next],
    decreases later.len(),
{
    let all = seq![first] + later;
    if later.len() > 0 {
        lemma_batching(name, first, later.drop_last(), next);
        assert(seq![first] + later.drop_last() + seq![later.last()] =~= all);
    }
    assert(all.subrange(1, all.len() as int) =~= later);
    assert(all[0] == first);
    if any_final(all) {
        let i = choose|i: int| 0 <= i < all.len() && (#[trigger] all[i]).final_incident;
        if i > 0 {
            assert(later[i - 1] == all[i]);
        }
    }
    if any_final(later) {
        let j = choose|j: int| 0 <= j < later.len() && (#[trigger] later[j]).final_incident;
        assert(all[j + 1] == later[j]);
    }
}

/// Whether another attempt at sending a digest follows `failures` failed ones.
pub fn should_retry_send(failures: u32) -> (r: bool)
    ensures
        r == (failures < MAIL_ATTEMPTS),
{
    failures < MAIL_ATTEMPTS
}

/// The subject of the notice sent when the manager starts.
pub open spec fn startup_subject(name: Seq<char>) -> Seq<char> {
    name + " - Minecraft Server Manager Started"@
}

/// The body of the notice sent when the manager starts.
pub open spec fn startup_body(name: Seq<char>, t: Timestamp) -> Seq<char> {
    "On "@ + time_text(t) + ", the Minecraft server manager for \""@ + name + "\" started."@
}

/// The mail announcing that the manager started at `time`.
pub fn startup_notice(name: &str, time: Timestamp) -> (d: Digest)
    requires
        time.wf(),
    ensures
        d.subject@ == startup_subject(name@),
        d.body@ == startup_body(name@, time),
        !d.is_final,
{
    let mut subject = name.to_string();
    subject.append(" - Minecraft Server Manager Started");
    let mut body = "On ".to_string();
    body.append(utc_text(time.secs, time.nanos).as_str());
    body.append(", the Minecraft server manager for \"");
    body.append(name);
    body.append("\" started.");
    Digest { subject, body, is_final: false }
}

} // verus!
