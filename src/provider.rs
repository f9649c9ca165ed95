use vstd::prelude::*;
use vstd::string::*;

verus! {

/// One entry of the provider's `errors` list.
pub struct ApiError {
    pub code: u32,
    pub message: String,
}

/// The provider's answer to every call: a success flag, errors, informational
/// messages and, on success, the payload.
pub struct Envelope<T> {
    pub success: bool,
    pub errors: Vec<ApiError>,
    pub messages: Vec<String>,
    pub result: Option<T>,
}

/// A DNS record as the provider lists it.
pub struct DnsRecord {
    pub id: String,
    pub name: String,
    pub content: String,
    pub record_type: String,
    pub ttl: u32,
}

/// The body of an update: the record's new type, name, content and TTL.
pub struct UpdateDnsRecord {
    pub record_type: String,
    pub name: String,
    pub content: String,
    pub ttl: u32,
}

/// Which provider call an error belongs to.
#[derive(Clone, Copy, Debug, PartialEq, Eq, Structural)]
pub enum Operation {
    ListRecords,
    UpdateRecord,
}

/// A failed provider call, as told by its envelope.
pub enum ProviderError {
    /// The provider reported failure, with its errors in order.
    Api { operation: Operation, errors: Vec<ApiError> },
    /// The provider reported success but sent no payload.
    NoResult { operation: Operation },
}

/// What checking `env` for `operation` gives: the provider's errors when it
/// reports failure, [`ProviderError::NoResult`] when it reports success without
/// payload, and the payload otherwise.
pub open spec fn validated<T>(env: Envelope<T>, operation: Operation) -> Result<T, ProviderError> {
    if !env.success {
        Err(ProviderError::Api { operation, errors: env.errors })
    } else {
        match env.result {
            Some(payload) => Ok(payload),
            None => Err(ProviderError::NoResult { operation }),
        }
    }
}

/// Checks an envelope: a failure becomes [`ProviderError::Api`] carrying the
/// provider's errors, a success without payload becomes
/// [`ProviderError::NoResult`], and otherwise the payload is returned.
/// Informational messages are no failure; the caller may show them.
pub fn validate_envelope<T>(env: Envelope<T>, operation: Operation) -> (r: Result<T, ProviderError>)
    ensures
        r == validated(env, operation),
{
    let Envelope { success, errors, messages: _, result } = env;
    if !success {
        return Err(ProviderError::Api { operation, errors });
    }
    match result {
        Some(payload) => Ok(payload),
        None => Err(ProviderError::NoResult { operation }),
    }
}

/// HTTP methods the provider is called with.
#[derive(Clone, Copy, Debug, PartialEq, Eq, Structural)]
pub enum HttpMethod {
    Get,
    Put,
}

/// A request to the provider, ready to be sent: method, full URL, value of the
/// `Authorization` header, and the JSON body if any. Every request is sent with
/// `Content-Type: application/json`.
pub struct ProviderRequest {
    pub method: HttpMethod,
    pub url: String,
    pub authorization: String,
    pub body: Option<UpdateDnsRecord>,
}

pub open spec fn api_base() -> Seq<char> {
    "https://api.cloudflare.com/client/v4/zones/"@
}

/// `<base><zone>/dns_records?name=<name>`, the name taken as it is.
pub open spec fn list_url(zone_id: Seq<char>, name: Seq<char>) -> Seq<char> {
    api_base() + zone_id + "/dns_records?name="@ + name
}

/// `<base><zone>/dns_records/<id>`.
pub open spec fn update_url(zone_id: Seq<char>, record_id: Seq<char>) -> Seq<char> {
    api_base() + zone_id + "/dns_records/"@ + record_id
}

pub open spec fn bearer(token: Seq<char>) -> Seq<char> {
    "Bearer "@ + token
}

/// The credentials and zone that every provider request is scoped to.
pub struct CloudflareClient {
    pub api_token: String,
    pub zone_id: String,
}

impl CloudflareClient {
    pub fn new(api_token: String, zone_id: String) -> (r: Self)
        ensures
            r.api_token@ == api_token@,
            r.zone_id@ == zone_id@,
    {
        CloudflareClient { api_token, zone_id }
    }

    fn authorization(&self) -> (r: String)
        ensures
            r@ == bearer(self.api_token@),
    {
        String::from_str("Bearer ").concat(self.api_token.as_str())
    }

    /// The authenticated request that lists the zone's records named `record_name`.
    pub fn get_dns_records_request(&self, record_name: &str) -> (r: ProviderRequest)
        ensures
            r.method == HttpMethod::Get,
            r.url@ == list_url(self.zone_id@, record_name@),
            r.authorization@ == bearer(self.api_token@),
            r.body is None,
    {
        let url = String::from_str("https://api.cloudflare.com/client/v4/zones/")
            .concat(self.zone_id.as_str())
            .concat("/dns_records?name=")
            .concat(record_name);
        ProviderRequest { method: HttpMethod::Get, url, authorization: self.authorization(), body: None }
    }

    /// The authenticated request that replaces record `record_id` with `update_data`.
    pub fn update_dns_record_request(&self, record_id: &str, update_data: UpdateDnsRecord) -> (r: ProviderRequest)
        ensures
            r.method == HttpMethod::Put,
            r.url@ == update_url(self.zone_id@, record_id@),
            r.authorization@ == bearer(self.api_token@),
            r.body == Some(update_data),
    {
        let url = String::from_str("https://api.cloudflare.com/client/v4/zones/")
            .concat(self.zone_id.as_str())
            .concat("/dns_records/")
            .concat(record_id);
        ProviderRequest { method: HttpMethod::Put, url, authorization: self.authorization(), body: Some(update_data) }
    }

    /// Validates the answer to a list request.
    pub fn get_dns_records_response(&self, env: Envelope<Vec<DnsRecord>>) -> (r: Result<Vec<DnsRecord>, ProviderError>)
        ensures
            r == validated(env, Operation::ListRecords),
    {
        validate_envelope(env, Operation::ListRecords)
    }

    /// Validates the answer to an update request.
    pub fn update_dns_record_response(&self, env: Envelope<DnsRecord>) -> (r: Result<(), ProviderError>)
        ensures
            match validated(env, Operation::UpdateRecord) {
                Ok(_) => r is Ok,
                Err(e) => r == Err::<(), ProviderError>(e),
            },
    {
        match validate_envelope(env, Operation::UpdateRecord) {
            Ok(_) => Ok(()),
            Err(e) => Err(e),
        }
    }
}

/// The decimal digit `d`, below ten.
pub open spec fn digit_char(d: nat) -> char {
    if d == 0 { '0' }
    else if d == 1 { '1' }
    else if d == 2 { '2' }
    else if d == 3 { '3' }
    else if d == 4 { '4' }
    else if d == 5 { '5' }
    else if d == 6 { '6' }
    else if d == 7 { '7' }
    else if d == 8 { '8' }
    else { '9' }
}

/// The decimal form of `n`, without leading zeros.
pub open spec fn decimal(n: nat) -> Seq<char>
    decreases n,
{
    if n < 10 {
        seq![digit_char(n)]
    } else {
        decimal(n / 10) + seq![digit_char(n % 10)]
    }
}

/// `Code <code>: <message>`.
pub open spec fn error_entry(e: ApiError) -> Seq<char> {
    "Code "@ + decimal(e.code as nat) + ": "@ + e.message@
}

/// The entries of `errors` joined by `, `.
pub open spec fn joined_entries(errors: Seq<ApiError>) -> Seq<char>
    decreases errors.len(),
{
    if errors.len() == 0 {
        Seq::empty()
    } else if errors.len() == 1 {
        error_entry(errors[0])
    } else {
        joined_entries(errors.drop_last()) + ", "@ + error_entry(errors.last())
    }
}

pub open spec fn operation_context(operation: Operation) -> Seq<char> {
    match operation {
        Operation::ListRecords => "Cloudflare API error"@,
        Operation::UpdateRecord => "Failed to update DNS record"@,
    }
}

/// The human-readable text of a provider error.
pub open spec fn error_text(e: ProviderError) -> Seq<char> {
    match e {
        ProviderError::Api { operation, errors } => operation_context(operation) + ": "@ + joined_entries(errors@),
        ProviderError::NoResult { .. } => "No result in response"@,
    }
}

fn digit_str(d: u32) -> (r: &'static str)
    requires
        d < 10,
    ensures
        r@ == seq![digit_char(d as nat)],
{
    proof {
        reveal_strlit("0"); reveal_strlit("1"); reveal_strlit("2"); reveal_strlit("3"); reveal_strlit("4");
        reveal_strlit("5"); reveal_strlit("6"); reveal_strlit("7"); reveal_strlit("8"); reveal_strlit("9");
    }
    let r = if d == 0 { "0" } else if d == 1 { "1" } else if d == 2 { "2" } else if d == 3 { "3" }
        else if d == 4 { "4" } else if d == 5 { "5" } else if d == 6 { "6" } else if d == 7 { "7" }
        else if d == 8 { "8" } else { "9" };
    assert(r@ =~= seq![digit_char(d as nat)]);
    r
}

/// Appends the decimal form of `n` to `s`.
fn append_decimal(s: String, n: u32) -> (r: String)
    ensures
        r@ == s@ + decimal(n as nat),
    decreases n,
{
    let ghost s0 = s@;
    let s = if n >= 10 {
        append_decimal(s, n / 10)
    } else {
        s
    };
    let r = s.concat(digit_str(n % 10));
    assert(r@ =~= s0 + decimal(n as nat));
    r
}

impl ProviderError {
    /// The error as text: for a failure reported by the provider, the call's
    /// context and each error as `Code <code>: <message>`, joined by `, `.
    pub fn message(&self) -> (r: String)
        ensures
            r@ == error_text(*self),
    {
        match self {
            ProviderError::Api { operation, errors } => {
                let context = match operation {
                    Operation::ListRecords => "Cloudflare API error",
                    Operation::UpdateRecord => "Failed to update DNS record",
                };
                let mut s = String::from_str(context).concat(": ");
                let ghost base = s@;
                let mut i: usize = 0;
                while i < errors.len()
                    invariant
                        i <= errors@.len(),
                        s@ == base + joined_entries(errors@.subrange(0, i as int)),
                    decreases errors@.len() - i,
                {
                    let ghost before = s@;
                    let ghost prefix = errors@.subrange(0, i as int);
                    let ghost next = errors@.subrange(0, i + 1);
                    assert(next.drop_last() =~= prefix);
                    if i > 0 {
                        s = s.concat(", ");
                    }
                    s = s.concat("Code ");
                    s = append_decimal(s, errors[i].code);
                    s = s.concat(": ");
                    s = s.concat(errors[i].message.as_str());
                    proof {
                        if i == 0 {
                            assert(prefix =~= Seq::<ApiError>::empty());
                        }
                        assert(s@ =~= base + joined_entries(next));
                    }
                    i = i + 1;
                }
                assert(errors@.subrange(0, errors@.len() as int) =~= errors@);
                s
            },
            ProviderError::NoResult { .. } => String::from_str("No result in response"),
        }
    }
}

} // verus!
