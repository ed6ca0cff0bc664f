//! Finding the provider's identifier of each configured record.
//!
//! An entry that carries an identifier keeps it. For the others the zone's
//! records are listed once, and an entry is matched to the last listed address
//! record that bears exactly its name.

use vstd::prelude::*;
use crate::data::{DnsRecord, DnsRecordView, DomainInfo, DomainInfoView, Entry, EntryView};
use crate::provider::LookupOutcome;
use crate::record::{text_is, RecordKind, RecordTarget, RecordTargetView};

verus! {

/// Whether a listed record is an address record that bears `name`.
pub open spec fn answers(record: DnsRecordView, name: Seq<char>) -> bool {
    RecordKind::spec_parse(record.record_type) is Some && record.name == name
}

/// The identifier of the last record of `records` that answers to `name`, if one does.
pub open spec fn spec_lookup(records: Seq<DnsRecordView>, name: Seq<char>) -> Option<Seq<char>>
    decreases records.len(),
{
    if records.len() == 0 {
        None
    } else if answers(records.last(), name) {
        Some(records.last().id)
    } else {
        spec_lookup(records.drop_last(), name)
    }
}

/// The identifier under which `entry` is written: its own where it carries
/// one, else the one that the listing gives for its name.
pub open spec fn spec_resolve(entry: EntryView, records: Seq<DnsRecordView>) -> Option<Seq<char>> {
    match entry.record_id {
        Some(id) => Some(id),
        None => spec_lookup(records, entry.name),
    }
}

/// The target of the worker for `entry`, where the entry resolves.
pub open spec fn spec_target(
    domain: DomainInfoView,
    entry: EntryView,
    records: Seq<DnsRecordView>,
) -> Option<RecordTargetView> {
    match spec_resolve(entry, records) {
        Some(id) => Some(
            RecordTargetView {
                zone_id: domain.zone_id,
                record_id: id,
                api_key: domain.api_key,
                entry,
            },
        ),
        None => None,
    }
}

/// One place for each entry of the zone, in the order of the configuration:
/// the target of its worker, or nothing where the entry does not resolve.
pub open spec fn spec_targets(domain: DomainInfoView, records: Seq<DnsRecordView>) -> Seq<
    Option<RecordTargetView>,
> {
    Seq::new(domain.entries.len(), |i: int| spec_target(domain, domain.entries[i], records))
}

/// What becomes of a zone at startup.
pub enum ZonePlan {
    /// The listing did not reach the provider: the zone is given up.
    Unreachable,
    /// The provider refused the listing: the zone is given up.
    Refused,
    /// The listing succeeded. One place for each entry, in the order of the
    /// configuration: its target, or `None` for an entry that is skipped.
    Resolved(Vec<Option<RecordTarget>>),
}

/// Whether `records[at]` answers to `name` and no later record does.
pub open spec fn is_last_match(records: Seq<DnsRecordView>, name: Seq<char>, at: int) -> bool {
    &&& 0 <= at < records.len()
    &&& answers(records[at], name)
    &&& forall|j: int| at < j < records.len() ==> !answers(#[trigger] records[j], name)
}

/// A lookup finds nothing exactly when no record answers to the name, and
/// finds an identifier exactly when it is that of the last record that does.
pub proof fn law_last_match_wins(records: Seq<DnsRecordView>, name: Seq<char>)
    ensures
        spec_lookup(records, name) is None <==> forall|i: int|
            0 <= i < records.len() ==> !answers(#[trigger] records[i], name),
        forall|id: Seq<char>|
            spec_lookup(records, name) == Some(id) <==> exists|i: int| #[trigger]
                is_last_match(records, name, i) && records[i].id == id,
    decreases records.len(),
{
    if records.len() > 0 {
        let front = records.drop_last();
        let at = records.len() - 1;
        law_last_match_wins(front, name);
        assert(forall|i: int| 0 <= i < front.len() ==> front[i] == records[i]);
        if answers(records.last(), name) {
            assert(is_last_match(records, name, at));
            assert forall|id: Seq<char>| (exists|i: int| #[trigger]
                is_last_match(records, name, i) && records[i].id == id) implies spec_lookup(
                records,
                name,
            ) == Some(id) by {
                let i = choose|i: int| #[trigger]
                    is_last_match(records, name, i) && records[i].id == id;
                assert(i == at) by {
                    if i < at {
                        assert(!answers(records[at], name));
                    }
                }
            }
        } else {
            assert forall|i: int| #[trigger] is_last_match(records, name, i) <==> is_last_match(
                front,
                name,
                i,
            ) by {
                if is_last_match(records, name, i) {
                    assert(i != at);
                    assert forall|j: int| i < j < front.len() implies !answers(
                        #[trigger] front[j],
                        name,
                    ) by {
                        assert(front[j] == records[j]);
                    }
                }
                if is_last_match(front, name, i) {
                    assert forall|j: int| i < j < records.len() implies !answers(
                        #[trigger] records[j],
                        name,
                    ) by {
                        if j < front.len() {
                            assert(records[j] == front[j]);
                        }
                    }
                }
            }
            assert forall|id: Seq<char>|
                spec_lookup(records, name) == Some(id) <==> exists|i: int| #[trigger]
                    is_last_match(records, name, i) && records[i].id == id by {
                if spec_lookup(front, name) == Some(id) {
                    let i = choose|i: int| #[trigger]
                        is_last_match(front, name, i) && front[i].id == id;
                    assert(is_last_match(records, name, i) && records[i].id == id);
                }
                if exists|i: int| #[trigger]
                    is_last_match(records, name, i) && records[i].id == id {
                    let i = choose|i: int| #[trigger]
                        is_last_match(records, name, i) && records[i].id == id;
                    assert(is_last_match(front, name, i) && front[i].id == id);
                }
            }
        }
    }
}

/// Whether a listed record is an address record that bears `name`.
fn record_answers(record: &DnsRecord, name: &String) -> (yes: bool)
    ensures
        yes == answers(record@, name@),
{
    (text_is(&record.record_type, "A") || text_is(&record.record_type, "AAAA")) && record.name
        == *name
}

/// The identifier that the listing gives for `name`: that of the last address
/// record bearing exactly this name. `None` where no record does.
pub fn lookup_record_id(records: &Vec<DnsRecord>, name: &String) -> (id: Option<String>)
    ensures
        id.deep_view() == spec_lookup(records.deep_view(), name@),
{
    let mut i: usize = records.len();
    assert(records.deep_view().subrange(0, i as int) =~= records.deep_view());
    while i > 0
        invariant
            i <= records.len(),
            spec_lookup(records.deep_view(), name@) == spec_lookup(
                records.deep_view().subrange(0, i as int),
                name@,
            ),
        decreases i,
    {
        let ghost head = records.deep_view().subrange(0, i as int);
        i -= 1;
        assert(head.last() == records@[i as int]@);
        assert(head.drop_last() =~= records.deep_view().subrange(0, i as int));
        if record_answers(&records[i], name) {
            return Some(records[i].id.clone());
        }
    }
    None
}

/// The identifier under which `entry` is written: its own where it carries
/// one, else the one that the listing gives for its name.
pub fn resolve_record_id(entry: &Entry, records: &Vec<DnsRecord>) -> (id: Option<String>)
    ensures
        id.deep_view() == spec_resolve(entry@, records.deep_view()),
{
    match &entry.record_id {
        Some(id) => Some(id.clone()),
        None => lookup_record_id(records, &entry.name),
    }
}

/// Decides what becomes of a zone once the listing of its records has ended.
///
/// A transport failure or a refusal gives the zone up. Otherwise every entry
/// gets its place, in the order of the configuration: the target of its
/// worker, or `None` where no identifier is found, which skips that entry and
/// no other.
pub fn plan_zone(domain: &DomainInfo, outcome: &LookupOutcome) -> (plan: ZonePlan)
    ensures
        match outcome {
            LookupOutcome::TransportFailure => plan is Unreachable,
            LookupOutcome::Answered(answer) => if answer.response.success {
                plan matches ZonePlan::Resolved(targets) && targets.deep_view() == spec_targets(
                    domain@,
                    answer.result.deep_view(),
                )
            } else {
                plan is Refused
            },
        },
{
    match outcome {
        LookupOutcome::TransportFailure => ZonePlan::Unreachable,
        LookupOutcome::Answered(answer) => {
            if !answer.response.success {
                return ZonePlan::Refused;
            }
            let mut targets: Vec<Option<RecordTarget>> = Vec::new();
            let mut i: usize = 0;
            while i < domain.entries.len()
                invariant
                    i <= domain.entries.len(),
                    targets.len() == i,
                    forall|j: int|
                        0 <= j < i ==> (#[trigger] targets@[j]).deep_view() == spec_target(
                            domain@,
                            domain.entries@[j]@,
                            answer.result.deep_view(),
                        ),
                decreases domain.entries.len() - i,
            {
                let entry = &domain.entries[i];
                let target = match resolve_record_id(entry, &answer.result) {
                    Some(id) => Some(
                        RecordTarget {
                            zone_id: domain.zone_id.clone(),
                            record_id: id,
                            api_key: domain.api_key.clone(),
                            entry: entry.clone(),
                        },
                    ),
                    None => None,
                };
                targets.push(target);
                i += 1;
            }
            assert(targets.deep_view() =~= spec_targets(domain@, answer.result.deep_view()));
            ZonePlan::Resolved(targets)
        },
    }
}

} // verus!
