use vstd::prelude::*;
use vstd::string::StringExecFns;

use crate::errors::CrmError;
use crate::meetings::Meeting;
use crate::setting::Setting;
use crate::strutil::string_is_empty;

verus! {

/// The CRM API token from the configuration; an error when none is set.
pub fn get_api_key(setting: &Setting) -> (r: Result<String, CrmError>)
    ensures
        setting.affinity_api_token@.len() == 0 ==> r == Err::<String, CrmError>(
            CrmError::ApiTokenNotSet,
        ),
        setting.affinity_api_token@.len() > 0 ==> (r matches Ok(k) && k@
            == setting.affinity_api_token@),
{
    if string_is_empty(&setting.affinity_api_token) {
        Err(CrmError::ApiTokenNotSet)
    } else {
        Ok(setting.affinity_api_token.clone())
    }
}

/// The endpoint that lists all CRM lists.
pub fn lists_url() -> (r: String)
    ensures
        r@ == "https://api.affinity.co/"@ + "/lists"@,
{
    String::from_str("https://api.affinity.co/").concat("/lists")
}

/// The endpoint that lists the entries of one CRM list.
pub fn list_entries_url(list_id: &str) -> (r: String)
    ensures
        r@ == "https://api.affinity.co/"@ + "/lists/"@ + list_id@,
{
    String::from_str("https://api.affinity.co/").concat("/lists/").concat(list_id)
}

/// The endpoint that adds an organization to one CRM list.
pub fn add_to_list_url(list_id: &str) -> (r: String)
    ensures
        r@ == "https://api.affinity.co/"@ + "/lists/"@ + list_id@ + "/list-entries"@,
{
    String::from_str("https://api.affinity.co/").concat("/lists/").concat(list_id).concat(
        "/list-entries",
    )
}

/// The endpoint that posts notes.
pub fn notes_url() -> (r: String)
    ensures
        r@ == "https://api.affinity.co/"@ + "/notes"@,
{
    String::from_str("https://api.affinity.co/").concat("/notes")
}

/// The query string suffix of an optional paging parameter.
pub open spec fn spec_paging(name: Seq<char>, value: Option<Seq<char>>) -> Seq<char> {
    match value {
        Some(v) => name + v,
        None => Seq::<char>::empty(),
    }
}

/// A person search: the endpoint with the search term and any paging
/// parameters; an empty term is refused.
pub fn persons_query_url(
    term: &str,
    page_size: &Option<String>,
    page_token: &Option<String>,
) -> (r: Result<String, CrmError>)
    ensures
        term@.len() == 0 ==> r == Err::<String, CrmError>(CrmError::EmptyTerm),
        term@.len() > 0 ==> (r matches Ok(u) && u@ == "https://api.affinity.co/"@ + "/persons"@
            + "?term="@ + term@ + spec_paging(
            "&page_size="@,
            match *page_size {
                Some(s) => Some(s@),
                None => None,
            },
        ) + spec_paging(
            "&page_token="@,
            match *page_token {
                Some(t) => Some(t@),
                None => None,
            },
        )),
{
    query_url("/persons", term, page_size, page_token)
}

/// An organization search: as the person search, on the organizations
/// endpoint.
pub fn organizations_query_url(
    term: &str,
    page_size: &Option<String>,
    page_token: &Option<String>,
) -> (r: Result<String, CrmError>)
    ensures
        term@.len() == 0 ==> r == Err::<String, CrmError>(CrmError::EmptyTerm),
        term@.len() > 0 ==> (r matches Ok(u) && u@ == "https://api.affinity.co/"@
            + "/organizations"@ + "?term="@ + term@ + spec_paging(
            "&page_size="@,
            match *page_size {
                Some(s) => Some(s@),
                None => None,
            },
        ) + spec_paging(
            "&page_token="@,
            match *page_token {
                Some(t) => Some(t@),
                None => None,
            },
        )),
{
    query_url("/organizations", term, page_size, page_token)
}

/// Builds a search URL on one endpoint.
fn query_url(
    endpoint: &str,
    term: &str,
    page_size: &Option<String>,
    page_token: &Option<String>,
) -> (r: Result<String, CrmError>)
    ensures
        term@.len() == 0 ==> r == Err::<String, CrmError>(CrmError::EmptyTerm),
        term@.len() > 0 ==> (r matches Ok(u) && u@ == "https://api.affinity.co/"@ + endpoint@
            + "?term="@ + term@ + spec_paging(
            "&page_size="@,
            match *page_size {
                Some(s) => Some(s@),
                None => None,
            },
        ) + spec_paging(
            "&page_token="@,
            match *page_token {
                Some(t) => Some(t@),
                None => None,
            },
        )),
{
    let term_s = String::from_str(term);
    if string_is_empty(&term_s) {
        return Err(CrmError::EmptyTerm);
    }
    let mut call = String::from_str("https://api.affinity.co/").concat(endpoint).concat(
        "?term=",
    ).concat(term);
    match page_size {
        Some(s) => {
            call = call.concat("&page_size=").concat(s.as_str());
        },
        None => {
        },
    }
    match page_token {
        Some(t) => {
            call = call.concat("&page_token=").concat(t.as_str());
        },
        None => {
        },
    }
    Ok(call)
}

/// One organization lookup: the endpoint with the organization id; an
/// empty id is refused.
pub fn organization_url(org_id: &str) -> (r: Result<String, CrmError>)
    ensures
        org_id@.len() == 0 ==> r == Err::<String, CrmError>(CrmError::EmptyOrganizationId),
        org_id@.len() > 0 ==> (r matches Ok(u) && u@ == "https://api.affinity.co/"@
            + "/organizations/"@ + org_id@),
{
    let id = String::from_str(org_id);
    if string_is_empty(&id) {
        return Err(CrmError::EmptyOrganizationId);
    }
    Ok(String::from_str("https://api.affinity.co/").concat("/organizations/").concat(org_id))
}

/// Whether one of the list's entries is this organization.
pub fn entry_exists(entry_ids: &Vec<String>, company_id: &String) -> (r: bool)
    ensures
        r == exists|i: int| 0 <= i < entry_ids@.len() && entry_ids@[i]@ == company_id@,
{
    let n = entry_ids.len();
    let mut i: usize = 0;
    while i < n
        invariant
            0 <= i <= n,
            n == entry_ids@.len(),
            forall|j: int| 0 <= j < i ==> entry_ids@[j]@ != company_id@,
        decreases n - i,
    {
        if entry_ids[i].eq(company_id) {
            proof {
                assert(entry_ids@[i as int]@ == company_id@);
            }
            return true;
        }
        i = i + 1;
    }
    false
}

/// What adding a meeting's organization to the configured list comes to:
/// nothing to do when the organization is already an entry, one post
/// otherwise; refused without an organization id or a configured list.
pub fn add_to_list_plan(
    list_id: &Option<String>,
    company_id: &String,
    existing_entry_ids: &Vec<String>,
) -> (r: Result<Option<String>, CrmError>)
    ensures
        company_id@.len() == 0 ==> r == Err::<Option<String>, CrmError>(
            CrmError::CompanyIdMissing,
        ),
        company_id@.len() > 0 && *list_id is None ==> r == Err::<Option<String>, CrmError>(
            CrmError::ListIdNotSet,
        ),
        company_id@.len() > 0 ==> (match *list_id {
            Some(id) => {
                if exists|i: int|
                    0 <= i < existing_entry_ids@.len() && existing_entry_ids@[i]@ == company_id@ {
                    r == Ok::<Option<String>, CrmError>(None)
                } else {
                    r matches Ok(p) && p matches Some(u) && u@ == id@
                }
            },
            None => r is Err,
        }),
{
    if string_is_empty(company_id) {
        return Err(CrmError::CompanyIdMissing);
    }
    match list_id {
        None => Err(CrmError::ListIdNotSet),
        Some(id) => {
            if entry_exists(existing_entry_ids, company_id) {
                Ok(None)
            } else {
                Ok(Some(id.clone()))
            }
        },
    }
}

/// Relies on chrono's datetime parsing, time-zone conversion to the
/// machine's local zone, and `Display`: the local rendering of the
/// meeting's timestamp, split before its zone offset, when the timestamp
/// parses. The local zone belongs to the machine: nothing more is
/// promised of the text.
#[verifier::external_body]
pub fn local_date_display(datetime: &str) -> (r: Option<String>)
{
    match chrono::NaiveDateTime::parse_from_str(datetime, "%Y-%m-%dT%H:%M:%SZ") {
        Ok(ndt) => {
            let utc = chrono::DateTime::<chrono::Utc>::from_naive_utc_and_offset(
                ndt,
                chrono::Utc,
            );
            let local = utc.with_timezone(&chrono::Local).to_string();
            match local.split(" -").next() {
                Some(d) => Some(d.to_string()),
                None => Some(local),
            }
        },
        Err(_) => None,
    }
}

/// The body of a published note: title, attribution, date and summary,
/// with the personal note appended when the meeting says to publish it.
pub open spec fn spec_note_content(
    title: Seq<char>,
    date: Seq<char>,
    summary: Seq<char>,
    note: Option<Seq<char>>,
) -> Seq<char> {
    let base = "<p>"@ + title + "<p><p>Generated with Watson</p><p>"@ + date + "<p>"@ + summary;
    match note {
        Some(n) => base + "<br><p><b>Personal note</b></p>"@ + n,
        None => base,
    }
}

/// The note published for a meeting, its date text given: the summary,
/// with the personal note appended exactly when the meeting says to
/// publish it.
pub open spec fn spec_meeting_note(m: Meeting, date: Seq<char>) -> Seq<char> {
    spec_note_content(
        m.title@,
        date,
        m.summary@,
        if m.publish_with_note == Some(true) {
            Some(m.note@)
        } else {
            None
        },
    )
}

/// Builds the note published to the CRM for a meeting: its title, its
/// timestamp shown in the machine's local zone when it parses (and as
/// stored otherwise), its summary, and — when the meeting says so — the
/// personal note. Refused without an organization id.
pub fn create_note_content(meeting: &Meeting) -> (r: Result<String, CrmError>)
    ensures
        meeting.company_id@.len() == 0 ==> r == Err::<String, CrmError>(
            CrmError::CompanyIdMissing,
        ),
        meeting.company_id@.len() > 0 ==> (r matches Ok(c) && exists|date: Seq<char>|
            c@ == #[trigger] spec_meeting_note(*meeting, date)),
{
    if string_is_empty(&meeting.company_id) {
        return Err(CrmError::CompanyIdMissing);
    }
    let date = match local_date_display(meeting.datetime.as_str()) {
        Some(d) => d,
        None => meeting.datetime.clone(),
    };
    let ghost date_view = date@;
    let base = String::from_str("<p>").concat(meeting.title.as_str()).concat(
        "<p><p>Generated with Watson</p><p>",
    ).concat(date.as_str()).concat("<p>").concat(meeting.summary.as_str());
    let publish_note = match meeting.publish_with_note {
        Some(true) => true,
        _ => false,
    };
    let content = if publish_note {
        base.concat("<br><p><b>Personal note</b></p>").concat(meeting.note.as_str())
    } else {
        base
    };
    proof {
        assert(content@ == spec_meeting_note(*meeting, date_view));
    }
    Ok(content)
}

} // verus!
