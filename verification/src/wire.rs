use vstd::prelude::*;
use vstd::string::StringExecFns;
use crate::events::{Effects, Event};

verus! {

/// The JSON string literal that stands for the text `s`: the text between
/// double quotes, with the characters escaped that JSON does not take as
/// they are.
pub uninterp spec fn json_quoted(s: Seq<char>) -> Seq<char>;

/// The decimal digit for `d`.
pub open spec fn digit(d: nat) -> char
    recommends
        d < 10,
{
    if d == 0 {
        '0'
    } else if d == 1 {
        '1'
    } else if d == 2 {
        '2'
    } else if d == 3 {
        '3'
    } else if d == 4 {
        '4'
    } else if d == 5 {
        '5'
    } else if d == 6 {
        '6'
    } else if d == 7 {
        '7'
    } else if d == 8 {
        '8'
    } else {
        '9'
    }
}

/// `n` in decimal digits, without leading zeros.
pub open spec fn decimal(n: nat) -> Seq<char>
    decreases n,
{
    if n < 10 {
        seq![digit(n)]
    } else {
        decimal(n / 10).push(digit(n % 10))
    }
}

/// Calls `serde_json::to_string` on a string slice. Trusted: the call gives
/// a text, and that text is the JSON string literal for `s`. The call writes
/// into a byte vector in memory and a string slice is always serialised, so
/// it has no way to fail.
#[verifier::external_body]
fn quote_json(s: &str) -> (r: Option<String>)
    ensures
        r.is_some(),
        r matches Some(t) ==> t@ == json_quoted(s@),
{
    serde_json::to_string(s).ok()
}

/// The JSON string literal for `s`.
pub fn quoted(s: &str) -> (r: String)
    ensures
        r@ == json_quoted(s@),
{
    quote_json(s).unwrap()
}

/// The text of one decimal digit.
fn digit_text(d: u8) -> (r: &'static str)
    requires
        d < 10,
    ensures
        r@ == seq![digit(d as nat)],
{
    proof {
        reveal_strlit("0");
        reveal_strlit("1");
        reveal_strlit("2");
        reveal_strlit("3");
        reveal_strlit("4");
        reveal_strlit("5");
        reveal_strlit("6");
        reveal_strlit("7");
        reveal_strlit("8");
        reveal_strlit("9");
    }
    let r = match d {
        0 => "0",
        1 => "1",
        2 => "2",
        3 => "3",
        4 => "4",
        5 => "5",
        6 => "6",
        7 => "7",
        8 => "8",
        _ => "9",
    };
    assert(r@ =~= seq![digit(d as nat)]);
    r
}

/// The characters of the digits `ds`, last digit first.
pub open spec fn digits_reversed(ds: Seq<u8>) -> Seq<char>
    decreases ds.len(),
{
    if ds.len() == 0 {
        Seq::empty()
    } else {
        seq![digit(ds.last() as nat)] + digits_reversed(ds.drop_last())
    }
}

/// Writes `n` in decimal digits.
pub fn decimal_string(n: u128) -> (r: String)
    ensures
        r@ == decimal(n as nat),
{
    let mut low: Vec<u8> = Vec::new();
    let mut m: u128 = n;
    while m >= 10
        invariant
            decimal(n as nat) == decimal(m as nat) + digits_reversed(low@),
            forall|k: int| 0 <= k < low@.len() ==> #[trigger] low@[k] < 10,
        decreases m,
    {
        let d: u8 = (m % 10) as u8;
        proof {
            let next = low@.push(d);
            assert(next.drop_last() =~= low@);
            assert(decimal(m as nat) == decimal((m / 10) as nat).push(digit((m % 10) as nat)));
            assert(decimal((m / 10) as nat).push(digit(d as nat)) + digits_reversed(low@) =~= decimal(
                (m / 10) as nat,
            ) + digits_reversed(next));
        }
        low.push(d);
        m = m / 10;
    }
    let mut out = String::from_str(digit_text(m as u8));
    let mut i: usize = low.len();
    proof {
        assert(low@.take(i as int) =~= low@);
        assert(decimal(m as nat) =~= seq![digit(m as nat)]);
    }
    while i > 0
        invariant
            i <= low@.len(),
            forall|k: int| 0 <= k < low@.len() ==> #[trigger] low@[k] < 10,
            out@ + digits_reversed(low@.take(i as int)) == decimal(n as nat),
        decreases i,
    {
        i -= 1;
        proof {
            let part = low@.take(i + 1);
            assert(part.drop_last() =~= low@.take(i as int));
            assert(part.last() == low@[i as int]);
            assert((out@ + seq![digit(low@[i as int] as nat)]) + digits_reversed(low@.take(i as int)) =~= out@
                + digits_reversed(part));
        }
        out.append(digit_text(low[i]));
    }
    proof {
        assert(low@.take(0) =~= Seq::<u8>::empty());
        assert(out@ + digits_reversed(low@.take(0)) =~= out@);
    }
    out
}

/// The JSON value of an account that may be absent.
pub open spec fn quoted_or_null(t: Option<String>) -> Seq<char> {
    match t {
        Some(s) => json_quoted(s@),
        None => "null"@,
    }
}

/// The `data` object of a record: its fields in the order of their names,
/// ids as numbers, accounts and balances as strings.
pub open spec fn event_data(ev: Event) -> Seq<char> {
    match ev {
        Event::CampaignCreated { campaign_id, owner, total_pool, token, name } => {
            "{\"campaign_id\":"@ + decimal(campaign_id as nat) + ",\"name\":"@ + json_quoted(name@)
                + ",\"owner\":"@ + json_quoted(owner@) + ",\"token\":"@ + quoted_or_null(token)
                + ",\"total_pool\":\""@ + decimal(total_pool as nat) + "\"}"@
        },
        Event::SubmissionCreated { submission_id, campaign_id, submitter, severity_claim } => {
            "{\"campaign_id\":"@ + decimal(campaign_id as nat) + ",\"severity_claim\":"@ + decimal(
                severity_claim as nat,
            ) + ",\"submission_id\":"@ + decimal(submission_id as nat) + ",\"submitter\":"@
                + json_quoted(submitter@) + "}"@
        },
        Event::Payout { campaign_id, submission_id, receiver, gross_reward, platform_fee } => {
            "{\"campaign_id\":"@ + decimal(campaign_id as nat) + ",\"gross_reward\":\""@ + decimal(
                gross_reward as nat,
            ) + "\",\"platform_fee\":\""@ + decimal(platform_fee as nat) + "\",\"receiver\":"@
                + json_quoted(receiver@) + ",\"submission_id\":"@ + decimal(submission_id as nat)
                + "}"@
        },
        Event::CampaignCancelled { campaign_id, refund_amount } => {
            "{\"campaign_id\":"@ + decimal(campaign_id as nat) + ",\"refund_amount\":\""@ + decimal(
                refund_amount as nat,
            ) + "\"}"@
        },
        Event::PauseToggle { paused } => {
            if paused {
                "{\"paused\":true}"@
            } else {
                "{\"paused\":false}"@
            }
        },
    }
}

/// The log line of a record with the tag `name` and the `data` object `data`.
pub open spec fn line_of(name: Seq<char>, data: Seq<char>) -> Seq<char> {
    "EVENT_JSON:{\"data\":"@ + data + ",\"event\":\""@ + name
        + "\",\"standard\":\"nearshield\",\"version\":\"1.0.0\"}"@
}

/// The log line of the record `ev`.
pub open spec fn event_line(ev: Event) -> Seq<char> {
    line_of(ev.spec_name(), event_data(ev))
}

/// Puts a log line together from a record's tag and its `data` object.
pub fn assemble_line(name: &str, data: &str) -> (r: String)
    ensures
        r@ == line_of(name@, data@),
{
    let mut out = String::from_str("EVENT_JSON:{\"data\":");
    out.append(data);
    out.append(",\"event\":\"");
    out.append(name);
    out.append("\",\"standard\":\"nearshield\",\"version\":\"1.0.0\"}");
    out
}

/// Appends the JSON value of an account that may be absent.
fn append_quoted_or_null(out: &mut String, token: &Option<String>)
    ensures
        final(out)@ == old(out)@ + quoted_or_null(*token),
{
    match token {
        None => {
            out.append("null");
        },
        Some(t) => {
            out.append(quoted(t.as_str()).as_str());
        },
    }
}

impl Event {
    /// The `data` object of the record.
    pub fn data_text(&self) -> (r: String)
        ensures
            r@ == event_data(*self),
    {
        match self {
            Event::CampaignCreated { campaign_id, owner, total_pool, token, name } => {
                let name_q = quoted(name.as_str());
                let owner_q = quoted(owner.as_str());
                let mut out = String::from_str("{\"campaign_id\":");
                out.append(decimal_string(*campaign_id as u128).as_str());
                out.append(",\"name\":");
                out.append(name_q.as_str());
                out.append(",\"owner\":");
                out.append(owner_q.as_str());
                out.append(",\"token\":");
                append_quoted_or_null(&mut out, token);
                out.append(",\"total_pool\":\"");
                out.append(decimal_string(*total_pool).as_str());
                out.append("\"}");
                out
            },
            Event::SubmissionCreated { submission_id, campaign_id, submitter, severity_claim } => {
                let submitter_q = quoted(submitter.as_str());
                let mut out = String::from_str("{\"campaign_id\":");
                out.append(decimal_string(*campaign_id as u128).as_str());
                out.append(",\"severity_claim\":");
                out.append(decimal_string(*severity_claim as u128).as_str());
                out.append(",\"submission_id\":");
                out.append(decimal_string(*submission_id as u128).as_str());
                out.append(",\"submitter\":");
                out.append(submitter_q.as_str());
                out.append("}");
                out
            },
            Event::Payout { campaign_id, submission_id, receiver, gross_reward, platform_fee } => {
                let receiver_q = quoted(receiver.as_str());
                let mut out = String::from_str("{\"campaign_id\":");
                out.append(decimal_string(*campaign_id as u128).as_str());
                out.append(",\"gross_reward\":\"");
                out.append(decimal_string(*gross_reward).as_str());
                out.append("\",\"platform_fee\":\"");
                out.append(decimal_string(*platform_fee).as_str());
                out.append("\",\"receiver\":");
                out.append(receiver_q.as_str());
                out.append(",\"submission_id\":");
                out.append(decimal_string(*submission_id as u128).as_str());
                out.append("}");
                out
            },
            Event::CampaignCancelled { campaign_id, refund_amount } => {
                let mut out = String::from_str("{\"campaign_id\":");
                out.append(decimal_string(*campaign_id as u128).as_str());
                out.append(",\"refund_amount\":\"");
                out.append(decimal_string(*refund_amount).as_str());
                out.append("\"}");
                out
            },
            Event::PauseToggle { paused } => {
                if *paused {
                    String::from_str("{\"paused\":true}")
                } else {
                    String::from_str("{\"paused\":false}")
                }
            },
        }
    }

    /// The line under which the record is logged.
    pub fn log_line(&self) -> (r: String)
        ensures
            r@ == event_line(*self),
    {
        let data = self.data_text();
        assemble_line(self.name(), data.as_str())
    }
}

impl Effects {
    /// The lines to log: one for every record, in the order of the records.
    pub fn log_lines(&self) -> (r: Vec<String>)
        ensures
            r@.len() == self.events@.len(),
            forall|i: int| 0 <= i < r@.len() ==> (#[trigger] r@[i])@ == event_line(self.events@[i]),
    {
        let mut out: Vec<String> = Vec::new();
        let mut i: usize = 0;
        while i < self.events.len()
            invariant
                i <= self.events@.len(),
                out@.len() == i,
                forall|k: int| 0 <= k < i ==> (#[trigger] out@[k])@ == event_line(self.events@[k]),
            decreases self.events@.len() - i,
        {
            out.push(self.events[i].log_line());
            i += 1;
        }
        out
    }
}

} // verus!
