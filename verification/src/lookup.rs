//! One lookup call: the request that is sent for a batch and the reading of
//! what the provider answered.

use crate::ip_data::ValidatorIpData;
use crate::ip_data_map::{entry_views, mapping_of, IpDataMap};
use crate::validator::{ValidatorInfo, ValidatorView};
use vstd::prelude::*;

verus! {

/// Why a lookup for one batch produced no mapping.
#[derive(Debug, PartialEq, Eq)]
pub enum LookupError {
    /// The call to the provider could not complete.
    TransportFailure { detail: String },
    /// The provider answered with a status outside the success range; `body`
    /// is the raw response body.
    LookupFailed { body: String },
    /// The provider answered with a success status, but the body is not a
    /// mapping from address to metadata.
    MalformedResponse { detail: String },
}

/// What came back from one lookup call.
#[derive(Debug, PartialEq, Eq)]
pub enum LookupReply {
    /// The call could not complete.
    Unreachable { detail: String },
    /// The provider answered with this status and this body.
    Answered { status: u16, body: String },
}

/// The address a participant declared, as a function of the participant.
pub open spec fn declared_ip() -> spec_fn(ValidatorView) -> Option<Seq<char>> {
    |validator: ValidatorView| validator.ip
}

/// The addresses that the participants of a batch declared, in the order of
/// the batch. A participant without an address contributes nothing; an address
/// that several participants declared occurs once for each of them.
pub open spec fn batch_addresses(batch: Seq<ValidatorView>) -> Seq<Seq<char>> {
    batch.filter_map(declared_ip())
}

/// The addresses written one after the other, with a comma between each two.
pub open spec fn comma_joined(ips: Seq<Seq<char>>) -> Seq<char>
    decreases ips.len(),
{
    if ips.len() == 0 {
        Seq::empty()
    } else if ips.len() == 1 {
        ips[0]
    } else {
        comma_joined(ips.drop_last()) + seq![','] + ips.last()
    }
}

/// Where the provider answers lookups of address lists.
pub open spec fn endpoint() -> Seq<char> {
    "http://api.db-ip.com/v2/"@
}

/// The address of the one request that looks up a batch: the endpoint, the
/// credential, and the comma-joined addresses of the batch.
pub open spec fn lookup_url_of(api_key: Seq<char>, batch: Seq<ValidatorView>) -> Seq<char> {
    endpoint() + api_key + seq!['/'] + comma_joined(batch_addresses(batch))
}

/// Collects the addresses that the participants of `batch` declared.
pub fn batch_ips(batch: &[ValidatorInfo]) -> (ips: Vec<String>)
    ensures
        ips.deep_view() == batch_addresses(batch.deep_view()),
{
    let mut ips: Vec<String> = Vec::new();
    let mut i: usize = 0;
    while i < batch.len()
        invariant
            i <= batch@.len(),
            ips.deep_view() == batch_addresses(batch.deep_view().take(i as int)),
        decreases batch@.len() - i,
    {
        proof {
            batch.deep_view().lemma_filter_map_take_succ(declared_ip(), i as int);
        }
        match &batch[i].ip {
            Some(ip) => {
                ips.push(ip.clone());
            },
            None => {},
        }
        i += 1;
    }
    proof {
        assert(batch.deep_view().take(i as int) =~= batch.deep_view());
    }
    ips
}

/// Writes the addresses one after the other, with a comma between each two.
pub fn join_with_commas(ips: &[String]) -> (joined: String)
    ensures
        joined@ == comma_joined(ips.deep_view()),
{
    let mut joined = String::new();
    let mut i: usize = 0;
    while i < ips.len()
        invariant
            i <= ips@.len(),
            joined@ == comma_joined(ips.deep_view().take(i as int)),
        decreases ips@.len() - i,
    {
        proof {
            reveal_strlit(",");
            let next = ips.deep_view().take(i + 1);
            assert(next.drop_last() =~= ips.deep_view().take(i as int));
        }
        if i > 0 {
            joined.append(",");
        }
        joined.append(ips[i].as_str());
        i += 1;
    }
    proof {
        assert(ips.deep_view().take(i as int) =~= ips.deep_view());
    }
    joined
}

/// The address of the request that looks up `batch` with the credential
/// `api_key`.
pub fn lookup_url(api_key: &str, batch: &[ValidatorInfo]) -> (url: String)
    ensures
        url@ == lookup_url_of(api_key@, batch.deep_view()),
{
    let ips = batch_ips(batch);
    let joined = join_with_commas(&ips);
    let mut url = String::from_str("http://api.db-ip.com/v2/");
    url.append(api_key);
    proof {
        reveal_strlit("/");
    }
    url.append("/");
    url.append(joined.as_str());
    url
}

/// The numbers that are HTTP status codes.
pub open spec fn is_status_code(status: u16) -> bool {
    100 <= status <= 999
}

/// The HTTP status codes that count as success.
pub open spec fn is_success_status(status: u16) -> bool {
    200 <= status < 300
}

/// Asks `reqwest::StatusCode` about `status`: whether it is a status code at
/// all, and if so, whether it is a success status.
///
/// The contract is taken on trust from the type's source (it is the
/// `StatusCode` of the `http` crate, which `reqwest` hands on):
/// `StatusCode::from_u16` accepts exactly the codes 100 to 999, and
/// `StatusCode::is_success` holds exactly of the codes 200 to 299.
#[verifier::external_body]
fn status_success(status: u16) -> (success: Option<bool>)
    ensures
        success == if is_status_code(status) {
            Some(is_success_status(status))
        } else {
            None::<bool>
        },
{
    reqwest::StatusCode::from_u16(status).ok().map(|code| code.is_success())
}

/// Reads the status of a provider response: a success status hands the body
/// on for decoding; any other status, and a number that is no status at all,
/// fails the lookup and keeps the body in the error.
pub fn check_status(status: u16, body: String) -> (checked: Result<String, LookupError>)
    ensures
        is_success_status(status) ==> checked == Ok::<String, LookupError>(body),
        !is_success_status(status) ==> checked == Err::<String, LookupError>(
            LookupError::LookupFailed { body },
        ),
{
    match status_success(status) {
        Some(true) => Ok(body),
        _ => Err(LookupError::LookupFailed { body }),
    }
}

/// Whether `mapping` is what the decoding result `decoded` leads to: decoded
/// entries become the mapping, each piece of metadata under the address the
/// provider sent it under and with that address written into it; a body that
/// did not decode fails the lookup.
pub open spec fn follows_decoding(
    decoded: Result<Vec<(String, ValidatorIpData)>, String>,
    mapping: Result<IpDataMap, LookupError>,
) -> bool {
    match decoded {
        Ok(entries) => mapping matches Ok(found) && found@ == mapping_of(entry_views(entries@)),
        Err(detail) => mapping == Err::<IpDataMap, LookupError>(
            LookupError::MalformedResponse { detail },
        ),
    }
}

/// Turns what decoding the body of a successful response gave into the
/// mapping of the batch, or into the failure of the lookup.
pub fn decoded_mapping(decoded: Result<Vec<(String, ValidatorIpData)>, String>) -> (mapping: Result<
    IpDataMap,
    LookupError,
>)
    ensures
        follows_decoding(decoded, mapping),
{
    match decoded {
        Ok(entries) => Ok(IpDataMap::from_entries(&entries)),
        Err(detail) => Err(LookupError::MalformedResponse { detail }),
    }
}

/// Reads what came back from a lookup call. A call that could not complete
/// and an answer with a status outside the success range fail the lookup, the
/// latter with the body kept in the error; `decode` is not called for them.
/// The body of a successful answer is handed to `decode`, once, and what
/// `decode` returns decides between the mapping and a malformed response.
pub fn read_reply<D: FnOnce(String) -> Result<Vec<(String, ValidatorIpData)>, String>>(
    reply: LookupReply,
    decode: D,
) -> (mapping: Result<IpDataMap, LookupError>)
    requires
        forall|body: String| call_requires(decode, (body,)),
    ensures
        match reply {
            LookupReply::Unreachable { detail } => mapping == Err::<IpDataMap, LookupError>(
                LookupError::TransportFailure { detail },
            ),
            LookupReply::Answered { status, body } => if is_success_status(status) {
                exists|decoded: Result<Vec<(String, ValidatorIpData)>, String>|
                    call_ensures(decode, (body,), decoded) && #[trigger] follows_decoding(
                        decoded,
                        mapping,
                    )
            } else {
                mapping == Err::<IpDataMap, LookupError>(LookupError::LookupFailed { body })
            },
        },
{
    match reply {
        LookupReply::Unreachable { detail } => Err(LookupError::TransportFailure { detail }),
        LookupReply::Answered { status, body } => {
            match check_status(status, body) {
                Ok(body) => {
                    let decoded = decode(body);
                    let mapping = decoded_mapping(decoded);
                    mapping
                },
                Err(error) => Err(error),
            }
        },
    }
}

} // verus!
