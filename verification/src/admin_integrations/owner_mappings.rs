//! The owner-identity mappings of integrations: filters, status values and
//! the configuration that an editor's draft submits.
use vstd::prelude::*;
use crate::admin_configuration::{parse_optional_id as parse_positive_id, spec_positive_id};
use crate::administration::{optional_text, spec_optional_text};
use crate::api::integration_mapping::IntegrationOwnerMappingFilters;
use crate::contract::IntegrationOrderOwnerMappingStatus;
use crate::text::{
    decimal, i64_text, lemma_parse_decimal_round_trip, parse_i64, parsed_i64, text_equals, trim,
    trimmed,
};

verus! {

/// Reads the client filter's value as a positive id.
pub fn parse_optional_id(value: &str) -> (r: Option<i64>)
    ensures
        match r {
            Some(v) => spec_positive_id(value@) == Some(v as int),
            None => spec_positive_id(value@) is None,
        },
{
    parse_positive_id(value)
}

/// The client filter's value for an id: its decimal text, or empty.
pub fn optional_id_value(value: Option<i64>) -> (r: String)
    ensures
        r@ == (match value {
            Some(id) => decimal(id as int),
            None => Seq::<char>::empty(),
        }),
{
    match value {
        Some(id) => i64_text(id),
        None => String::new(),
    }
}

/// The client filter's value for an id reads back as that id; no filter
/// reads back as none.
pub proof fn lemma_optional_id_round_trip(value: Option<i64>)
    requires
        value matches Some(id) ==> id > 0,
    ensures
        spec_positive_id(
            match value {
                Some(id) => decimal(id as int),
                None => Seq::<char>::empty(),
            },
        ) == match value {
            Some(id) => Some(id as int),
            None => None::<int>,
        },
{
    if let Some(id) = value {
        lemma_parse_decimal_round_trip(id);
    }
}

/// The source filter: its text without outer white space, or `None` when
/// blank.
pub fn text_filter(value: &str) -> (r: Option<String>)
    ensures
        match r {
            Some(t) => spec_optional_text(value@) == Some(t@),
            None => spec_optional_text(value@) is None,
        },
{
    optional_text(value)
}

/// The status filter that a value selects: retired mappings for `retired`,
/// active ones for anything else.
pub open spec fn spec_parse_status(value: Seq<char>) -> IntegrationOrderOwnerMappingStatus {
    if value == "retired"@ {
        IntegrationOrderOwnerMappingStatus::Retired
    } else {
        IntegrationOrderOwnerMappingStatus::Active
    }
}

/// Reads the status filter's value.
pub fn parse_status(value: &str) -> (r: IntegrationOrderOwnerMappingStatus)
    ensures
        r == spec_parse_status(value@),
{
    if text_equals(value, "retired") {
        IntegrationOrderOwnerMappingStatus::Retired
    } else {
        IntegrationOrderOwnerMappingStatus::Active
    }
}

/// Every status filter reads back from its own wire value.
pub proof fn lemma_status_round_trip(status: IntegrationOrderOwnerMappingStatus)
    ensures
        spec_parse_status(status.wire()) == status,
{
    reveal_strlit("retired");
    reveal_strlit("active");
    assert("active"@ != "retired"@) by {
        assert("active"@[0] != "retired"@[0]);
    }
}

/// The wire value of a mapping status.
pub fn status_wire(value: IntegrationOrderOwnerMappingStatus) -> (r: &'static str)
    ensures
        r@ == value.wire(),
{
    value.as_wire()
}

/// The label of a mapping status.
pub fn mapping_status_label(value: IntegrationOrderOwnerMappingStatus) -> (r: &'static str)
    ensures
        r@ == value.label(),
{
    value.as_label()
}

/// The status class of a mapping status.
pub fn mapping_status_class(value: IntegrationOrderOwnerMappingStatus) -> (r: &'static str)
    ensures
        r@ == value.css_class(),
{
    value.as_css_class()
}

/// The client that a new mapping starts with: the client filter's, else
/// the first client the user may see.
pub fn default_owner_id(owner_filter: Option<i64>, first_owner: Option<i64>) -> (r: Option<i64>)
    ensures
        r == (if owner_filter is Some {
            owner_filter
        } else {
            first_owner
        }),
{
    match owner_filter {
        Some(id) => Some(id),
        None => first_owner,
    }
}

/// The configuration that an owner-mapping editor submits.
#[derive(Clone, Debug)]
pub struct OwnerMappingConfiguration {
    pub source_key: String,
    pub external_inventory_owner_key: String,
    pub inventory_owner_id: i64,
    /// The revision that a reconfiguration expects; `None` creates.
    pub expected_revision: Option<u64>,
}

/// The message when the draft's client is not a number.
pub open spec fn missing_client_message() -> Seq<char> {
    "Select a Wareboxes client."@
}

/// The message when the draft's source or external key is blank.
pub open spec fn missing_keys_message() -> Seq<char> {
    "Source and external owner key are required."@
}

/// The revision that a submitted draft expects: that of the selected
/// mapping when the editor reconfigures an active one, else none.
pub open spec fn spec_expected_revision(
    reconfiguring: bool,
    selected: Option<(IntegrationOrderOwnerMappingStatus, u64)>,
) -> Option<u64> {
    match selected {
        Some((status, revision)) => if reconfiguring && status
            == IntegrationOrderOwnerMappingStatus::Active {
            Some(revision)
        } else {
            None
        },
        None => None,
    }
}

/// Turns an editor's draft into the configuration to submit. The client
/// must read as a number, and the source and external keys must not be
/// blank once trimmed; the keys are sent trimmed.
pub fn configuration_request(
    source_key: &str,
    external_owner_key: &str,
    owner_id: &str,
    reconfiguring: bool,
    selected: Option<(IntegrationOrderOwnerMappingStatus, u64)>,
) -> (r: Result<OwnerMappingConfiguration, String>)
    ensures
        r is Ok <==> (parsed_i64(owner_id@) is Some && trimmed(source_key@).len() > 0
            && trimmed(external_owner_key@).len() > 0),
        match r {
            Ok(c) => {
                &&& c.source_key@ == trimmed(source_key@)
                &&& c.external_inventory_owner_key@ == trimmed(external_owner_key@)
                &&& parsed_i64(owner_id@) == Some(c.inventory_owner_id as int)
                &&& c.expected_revision == spec_expected_revision(reconfiguring, selected)
            },
            Err(message) => message@ == if parsed_i64(owner_id@) is None {
                missing_client_message()
            } else {
                missing_keys_message()
            },
        },
{
    let source = trim(source_key);
    let external = trim(external_owner_key);
    let inventory_owner_id = match parse_i64(owner_id) {
        Some(id) => id,
        None => return Err(String::from_str("Select a Wareboxes client.")),
    };
    if source.unicode_len() == 0 || external.unicode_len() == 0 {
        return Err(String::from_str("Source and external owner key are required."));
    }
    let expected_revision = match selected {
        Some((status, revision)) => {
            if reconfiguring && status == IntegrationOrderOwnerMappingStatus::Active {
                Some(revision)
            } else {
                None
            }
        },
        None => None,
    };
    Ok(
        OwnerMappingConfiguration {
            source_key: String::from_str(source),
            external_inventory_owner_key: String::from_str(external),
            inventory_owner_id,
            expected_revision,
        },
    )
}

/// The filters of a page of owner mappings: the client filter, the source
/// trimmed (left out when blank), and the status shown.
pub fn owner_mapping_filters(
    owner_filter: Option<i64>,
    source_filter: &str,
    status: IntegrationOrderOwnerMappingStatus,
) -> (r: IntegrationOwnerMappingFilters)
    ensures
        r.inventory_owner_id == owner_filter,
        match r.source_key {
            Some(t) => spec_optional_text(source_filter@) == Some(t@),
            None => spec_optional_text(source_filter@) is None,
        },
        r.status == Some(status),
{
    IntegrationOwnerMappingFilters {
        inventory_owner_id: owner_filter,
        source_key: text_filter(source_filter),
        status: Some(status),
    }
}

} // verus!
