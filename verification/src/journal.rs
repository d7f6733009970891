//! The journal of granted trials: one line of comma-separated fields per
//! grant, and the index that is rebuilt from those lines.

use crate::ident::{uuid_text, Id128};
use crate::index::TrialIndex;
use crate::text::{
    comma_free, fields, lemma_fields_of_comma_free, lemma_fields_of_joined, sanitize, sanitized,
    single_line, split_fields,
};
use crate::timestamp::{rfc3339_text, timestamp_of, Timestamp};
use vstd::prelude::*;
use vstd::string::*;

verus! {

/// Five fields joined by single commas, nothing escaped.
pub open spec fn joined(
    time: Seq<char>,
    email: Seq<char>,
    telegram: Seq<char>,
    sub_id: Seq<char>,
    env: Seq<char>,
) -> Seq<char> {
    time + seq![','] + email + seq![','] + telegram + seq![','] + sub_id + seq![','] + env
}

/// The telegram handle as the journal holds it: with a space in place of
/// every comma and line feed, so that it stays one field of one line, and
/// empty where there is none. A handle that holds neither is held as it is.
pub open spec fn handle_field(telegram: Option<&str>) -> Seq<char> {
    match telegram {
        Some(handle) => sanitized(handle@),
        None => Seq::<char>::empty(),
    }
}

/// The journal line of a grant: time, address, telegram handle, subscription
/// identifier and environment.
pub open spec fn journal_line(
    at: Timestamp,
    email: Seq<char>,
    telegram: Seq<char>,
    sub_id: Id128,
    env: Seq<char>,
) -> Seq<char> {
    joined(rfc3339_text(at.secs, at.nanos), email, telegram, uuid_text(sub_id.bits), env)
}

/// What loading takes from one line: the address in its second field with
/// the time in its first. A line with fewer than two fields, or whose first
/// field is no timestamp, gives nothing.
pub open spec fn line_record(line: Seq<char>) -> Option<(Seq<char>, Timestamp)> {
    let parts = fields(line);
    if parts.len() >= 2 {
        match timestamp_of(parts[0]) {
            Some(at) => Some((parts[1], at)),
            None => None,
        }
    } else {
        None
    }
}

/// The index that the lines of a journal stand for: every line that gives a
/// record enters it, a later line replacing an earlier one for the same
/// address.
pub open spec fn loaded(lines: Seq<Seq<char>>) -> Map<Seq<char>, Timestamp>
    decreases lines.len(),
{
    if lines.len() == 0 {
        Map::empty()
    } else {
        let before = loaded(lines.drop_last());
        match line_record(lines.last()) {
            Some((email, at)) => before.insert(email, at),
            None => before,
        }
    }
}

/// The address that loading takes from one line, if it takes any.
pub open spec fn line_address(line: Seq<char>) -> Option<Seq<char>> {
    match line_record(line) {
        Some((email, _)) => Some(email),
        None => None,
    }
}

/// Every line that gives a record has its address in the loaded index.
pub proof fn lemma_loaded_holds_record(lines: Seq<Seq<char>>, i: int, email: Seq<char>)
    requires
        0 <= i < lines.len(),
        line_address(lines[i]) == Some(email),
    ensures
        loaded(lines).contains_key(email),
    decreases lines.len(),
{
    if i < lines.len() - 1 {
        lemma_loaded_holds_record(lines.drop_last(), i, email);
    }
}

/// The loaded index holds no address but those of the records, and for each
/// the time of the last line that gives a record for it.
pub proof fn lemma_loaded_from_records(lines: Seq<Seq<char>>, email: Seq<char>)
    requires
        loaded(lines).contains_key(email),
    ensures
        exists|i: int|
            0 <= i < lines.len() && #[trigger] line_record(lines[i]) == Some(
                (email, loaded(lines)[email]),
            ) && forall|j: int|
                i < j < lines.len() ==> #[trigger] line_address(lines[j]) != Some(email),
    decreases lines.len(),
{
    if lines.len() > 0 {
        let last = lines.len() - 1;
        let before = lines.drop_last();
        let held = loaded(lines)[email];
        if line_address(lines[last]) == Some(email) {
            assert(line_record(lines[last]) == Some((email, held)));
        } else {
            assert(loaded(before).contains_key(email));
            lemma_loaded_from_records(before, email);
            let i = choose|i: int|
                0 <= i < before.len() && #[trigger] line_record(before[i]) == Some(
                    (email, loaded(before)[email]),
                ) && forall|j: int|
                    i < j < before.len() ==> #[trigger] line_address(before[j]) != Some(email);
            assert(line_record(lines[i]) == Some((email, held)));
            assert forall|j: int| i < j < lines.len() implies #[trigger] line_address(lines[j])
                != Some(email) by {
                if j < last {
                    assert(before[j] == lines[j]);
                }
            }
        }
    }
}

/// Round trip: where every line reads back as the address and the time of
/// one grant, as `save_trial` ensures of each line it writes for an address
/// without a comma, the loaded index holds exactly the addresses of the
/// grants; and an address that was granted once is held with the time of
/// that grant.
pub proof fn lemma_load_recovers_grants(
    lines: Seq<Seq<char>>,
    emails: Seq<Seq<char>>,
    times: Seq<Timestamp>,
)
    requires
        lines.len() == emails.len(),
        lines.len() == times.len(),
        forall|i: int|
            0 <= i < lines.len() ==> #[trigger] line_record(lines[i]) == Some(
                (emails[i], times[i]),
            ),
    ensures
        loaded(lines).dom() =~= emails.to_set(),
        forall|i: int|
            0 <= i < emails.len() && (forall|j: int|
                0 <= j < emails.len() && j != i ==> emails[j] != emails[i]) ==> loaded(
                lines,
            )[#[trigger] emails[i]] == times[i],
{
    assert forall|email: Seq<char>| loaded(lines).dom().contains(email) implies emails.to_set().contains(
        email,
    ) by {
        lemma_loaded_from_records(lines, email);
        let i = choose|i: int|
            0 <= i < lines.len() && #[trigger] line_record(lines[i]) == Some(
                (email, loaded(lines)[email]),
            );
        assert(emails[i] == email);
    }
    assert forall|email: Seq<char>| emails.to_set().contains(email) implies loaded(
        lines,
    ).dom().contains(email) by {
        let i = choose|i: int| 0 <= i < emails.len() && emails[i] == email;
        assert(line_record(lines[i]) == Some((emails[i], times[i])));
        lemma_loaded_holds_record(lines, i, email);
    }
    assert forall|i: int|
        0 <= i < emails.len() && (forall|j: int|
            0 <= j < emails.len() && j != i ==> emails[j] != emails[i]) implies loaded(
        lines,
    )[#[trigger] emails[i]] == times[i] by {
        assert(line_record(lines[i]) == Some((emails[i], times[i])));
        lemma_loaded_holds_record(lines, i, emails[i]);
        lemma_loaded_from_records(lines, emails[i]);
        let k = choose|k: int|
            0 <= k < lines.len() && #[trigger] line_record(lines[k]) == Some(
                (emails[i], loaded(lines)[emails[i]]),
            );
        assert(line_record(lines[k]) == Some((emails[k], times[k])));
        assert(k == i);
    }
}

/// The fields of a joined line whose first four fields hold no comma.
pub proof fn lemma_fields_of_record(
    time: Seq<char>,
    email: Seq<char>,
    telegram: Seq<char>,
    sub_id: Seq<char>,
    env: Seq<char>,
)
    requires
        comma_free(time),
        comma_free(email),
        comma_free(telegram),
        comma_free(sub_id),
    ensures
        fields(joined(time, email, telegram, sub_id, env)) == seq![time, email, telegram, sub_id]
            + fields(env),
{
    let c = seq![','];
    let r3 = sub_id + c + env;
    let r2 = telegram + c + r3;
    let r1 = email + c + r2;
    assert(joined(time, email, telegram, sub_id, env) =~= time + c + r1);
    lemma_fields_of_joined(time, r1);
    lemma_fields_of_joined(email, r2);
    lemma_fields_of_joined(telegram, r3);
    lemma_fields_of_joined(sub_id, env);
    assert(seq![time] + (seq![email] + (seq![telegram] + (seq![sub_id] + fields(env))))
        =~= seq![time, email, telegram, sub_id] + fields(env));
}

/// The first two fields of a joined line whose time and address hold no
/// comma.
pub proof fn lemma_head_of_record(
    time: Seq<char>,
    email: Seq<char>,
    telegram: Seq<char>,
    sub_id: Seq<char>,
    env: Seq<char>,
)
    requires
        comma_free(time),
        comma_free(email),
    ensures
        fields(joined(time, email, telegram, sub_id, env)).len() >= 2,
        fields(joined(time, email, telegram, sub_id, env))[0] == time,
        fields(joined(time, email, telegram, sub_id, env))[1] == email,
{
    let c = seq![','];
    let r2 = telegram + c + sub_id + c + env;
    let r1 = email + c + r2;
    assert(joined(time, email, telegram, sub_id, env) =~= time + c + r1);
    lemma_fields_of_joined(time, r1);
    lemma_fields_of_joined(email, r2);
}

/// Joins the five fields of a journal line by commas.
pub fn join_record(time: &str, email: &str, telegram: &str, sub_id: &str, env: &str) -> (line:
    String)
    ensures
        line@ == joined(time@, email@, telegram@, sub_id@, env@),
{
    proof {
        reveal_strlit(",");
    }
    let mut line = String::new();
    line.append(time);
    line.append(",");
    line.append(email);
    line.append(",");
    line.append(telegram);
    line.append(",");
    line.append(sub_id);
    line.append(",");
    line.append(env);
    assert(line@ =~= joined(time@, email@, telegram@, sub_id@, env@));
    line
}

/// The text that a grant adds to the journal: its line, ended by a newline.
/// The telegram handle is written with a space in place of every comma and
/// line feed, and as it is where it holds neither; the other fields are
/// written as they are. So the handle never moves a field: where the address
/// holds no comma, loading reads the address and the time back from the line,
/// the address is its second field, the handle its third and the
/// subscription identifier its fourth; where the environment holds none
/// either, these are five fields. Where address and environment hold no line
/// feed, the text is one line.
pub fn save_trial(
    email: &str,
    tg: Option<&str>,
    sub_id: &Id128,
    env: &str,
    time: &Timestamp,
) -> (text: String)
    requires
        time.wf(),
    ensures
        text@ == journal_line(*time, email@, handle_field(tg), *sub_id, env@) + seq!['\n'],
        tg matches Some(handle) ==> (comma_free(handle@) && single_line(handle@)
            ==> handle_field(tg) == handle@),
        comma_free(email@) ==> line_record(
            journal_line(*time, email@, handle_field(tg), *sub_id, env@),
        ) == Some((email@, *time)),
        comma_free(email@) ==> {
            let parts = fields(journal_line(*time, email@, handle_field(tg), *sub_id, env@));
            &&& parts.len() >= 5
            &&& parts[1] == email@
            &&& parts[2] == handle_field(tg)
            &&& parts[3] == uuid_text(sub_id.bits)
        },
        comma_free(email@) && comma_free(env@) ==> {
            let parts = fields(journal_line(*time, email@, handle_field(tg), *sub_id, env@));
            parts.len() == 5 && parts[4] == env@
        },
        single_line(email@) && single_line(env@) ==> single_line(
            journal_line(*time, email@, handle_field(tg), *sub_id, env@),
        ),
{
    let when = time.to_rfc3339();
    let id = sub_id.to_text();
    let handle = match tg {
        Some(handle) => sanitize(handle),
        None => String::new(),
    };
    proof {
        reveal_strlit("\n");
        assert(handle@ =~= handle_field(tg));
        if comma_free(email@) {
            lemma_head_of_record(when@, email@, handle@, id@, env@);
            lemma_fields_of_record(when@, email@, handle@, id@, env@);
            if comma_free(env@) {
                lemma_fields_of_comma_free(env@);
            }
        }
    }
    let mut text = join_record(when.as_str(), email, handle.as_str(), id.as_str(), env);
    text.append("\n");
    assert(text@ =~= journal_line(*time, email@, handle_field(tg), *sub_id, env@) + seq!['\n']);
    text
}

/// What loading takes from the fields of one line, given what was read from
/// the first of them as a timestamp: the second field with that timestamp,
/// where there are two fields and a timestamp.
pub fn record_of(parts: &Vec<String>, read: Option<Timestamp>) -> (record: Option<
    (String, Timestamp),
>)
    ensures
        match record {
            Some((email, at)) => parts.len() >= 2 && email@ == parts[1]@ && read == Some(at),
            None => parts.len() < 2 || read is None,
        },
{
    if parts.len() >= 2 {
        match read {
            Some(at) => Some((parts[1].clone(), at)),
            None => None,
        }
    } else {
        None
    }
}

/// What loading takes from one line of the journal.
pub fn parse_line(line: &str) -> (record: Option<(String, Timestamp)>)
    ensures
        match record {
            Some((email, at)) => line_record(line@) == Some((email@, at)) && at.wf(),
            None => line_record(line@) is None,
        },
{
    let parts = split_fields(line);
    assert(parts.deep_view().len() == parts.len());
    assert(parts.deep_view()[0] == parts[0]@);
    if parts.len() >= 2 {
        assert(parts.deep_view()[1] == parts[1]@);
    }
    let read = Timestamp::parse(parts[0].as_str());
    record_of(&parts, read)
}

/// Rebuilds the index from the lines of the journal, in their order. Lines
/// that give no record are passed over.
pub fn load_trials(lines: &Vec<String>) -> (index: TrialIndex)
    ensures
        index.wf(),
        index@ == loaded(lines.deep_view()),
{
    let mut index = TrialIndex::new();
    let ghost all = lines.deep_view();
    for i in 0..lines.len()
        invariant
            all == lines.deep_view(),
            index.wf(),
            index@ == loaded(all.take(i as int)),
    {
        proof {
            assert(all.take(i + 1).drop_last() =~= all.take(i as int));
            assert(all.take(i + 1).last() == lines[i as int]@);
        }
        match parse_line(lines[i].as_str()) {
            Some((email, at)) => {
                index.record(email, at);
            },
            None => {},
        }
    }
    proof {
        assert(all.take(lines.len() as int) =~= all);
    }
    index
}

} // verus!
