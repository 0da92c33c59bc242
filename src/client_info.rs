//! Information that traces a request through the source-control services.
use vstd::prelude::*;

verus! {

/// Whether `b` is an ASCII letter or digit.
pub open spec fn is_alphanumeric(b: u8) -> bool {
    (48 <= b <= 57) || (65 <= b <= 90) || (97 <= b <= 122)
}

/// Whether `c` is an ASCII letter or digit.
pub open spec fn is_alphanumeric_char(c: char) -> bool {
    ('0' <= c <= '9') || ('A' <= c <= 'Z') || ('a' <= c <= 'z')
}

/// Relies on `rand::distributions::Alphanumeric` sampled from `rand::thread_rng()`:
/// a byte drawn uniformly from the ASCII letters and digits.
#[verifier::external_body]
fn random_alphanumeric() -> (r: u8)
    ensures
        is_alphanumeric(r),
{
    rand::Rng::sample(&mut rand::thread_rng(), rand::distributions::Alphanumeric)
}

/// Relies on `String::push`: appends the character.
#[verifier::external_body]
fn push_char(s: &mut String, c: char)
    ensures
        final(s)@ == old(s)@.push(c),
{
    s.push(c)
}

/// The length of a request correlator.
pub const CORRELATOR_LEN: usize = 16;

#[derive(Clone, Copy, Debug, PartialEq, Eq, Structural)]
pub enum ClientEntryPoint {
    Sapling,
    EdenFS,
    SCS,
    SCMQuery,
    EdenAPI,
    LandService,
    LFS,
    DerivedDataService,
    ISL,
}

/// The name under which an entry point is written and parsed.
pub open spec fn entry_point_name(e: ClientEntryPoint) -> Seq<char> {
    match e {
        ClientEntryPoint::Sapling => "sapling"@,
        ClientEntryPoint::EdenFS => "edenfs"@,
        ClientEntryPoint::SCS => "scs"@,
        ClientEntryPoint::SCMQuery => "scm_query"@,
        ClientEntryPoint::EdenAPI => "eden_api"@,
        ClientEntryPoint::LandService => "landservice"@,
        ClientEntryPoint::LFS => "lfs"@,
        ClientEntryPoint::DerivedDataService => "derived_data_service"@,
        ClientEntryPoint::ISL => "isl"@,
    }
}

/// The text is no entry point's name.
#[derive(Clone, Copy, Debug, PartialEq, Eq, Structural)]
pub enum InvalidEntryPoint {
    Unknown,
}

/// Whether two strings hold the same characters.
fn same_text(a: &str, b: &str) -> (r: bool)
    ensures
        r == (a@ == b@),
{
    a.to_owned() == b.to_owned()
}

impl ClientEntryPoint {
    pub fn as_str(&self) -> (r: &'static str)
        ensures
            r@ == entry_point_name(*self),
    {
        match self {
            ClientEntryPoint::Sapling => "sapling",
            ClientEntryPoint::EdenFS => "edenfs",
            ClientEntryPoint::SCS => "scs",
            ClientEntryPoint::SCMQuery => "scm_query",
            ClientEntryPoint::EdenAPI => "eden_api",
            ClientEntryPoint::LandService => "landservice",
            ClientEntryPoint::LFS => "lfs",
            ClientEntryPoint::DerivedDataService => "derived_data_service",
            ClientEntryPoint::ISL => "isl",
        }
    }

    /// The entry point called `value`.
    pub fn try_from_str(value: &str) -> (r: Result<ClientEntryPoint, InvalidEntryPoint>)
        ensures
            r is Ok ==> entry_point_name(r.unwrap()) == value@,
            r is Err ==> forall|e: ClientEntryPoint| entry_point_name(e) != value@,
    {
        let all = [
            ClientEntryPoint::Sapling,
            ClientEntryPoint::EdenFS,
            ClientEntryPoint::SCS,
            ClientEntryPoint::SCMQuery,
            ClientEntryPoint::EdenAPI,
            ClientEntryPoint::LandService,
            ClientEntryPoint::LFS,
            ClientEntryPoint::DerivedDataService,
            ClientEntryPoint::ISL,
        ];
        let mut i: usize = 0;
        while i < 9
            invariant
                i <= 9,
                all@.len() == 9,
                forall|k: int| 0 <= k < i ==> entry_point_name(#[trigger] all@[k]) != value@,
            decreases 9 - i,
        {
            if same_text(all[i].as_str(), value) {
                return Ok(all[i]);
            }
            i = i + 1;
        }
        assert forall|e: ClientEntryPoint| entry_point_name(e) != value@ by {
            let k: int = match e {
                ClientEntryPoint::Sapling => 0,
                ClientEntryPoint::EdenFS => 1,
                ClientEntryPoint::SCS => 2,
                ClientEntryPoint::SCMQuery => 3,
                ClientEntryPoint::EdenAPI => 4,
                ClientEntryPoint::LandService => 5,
                ClientEntryPoint::LFS => 6,
                ClientEntryPoint::DerivedDataService => 7,
                ClientEntryPoint::ISL => 8,
            };
            assert(all@[k] == e);
            assert(entry_point_name(all@[k]) != value@);
        }
        Err(InvalidEntryPoint::Unknown)
    }
}

/// Information that will be used for tracing a request through the
/// source-control systems.
#[derive(Clone, Debug)]
pub struct ClientRequestInfo {
    /// Who triggered the request (e.g. "user:user_id").
    pub main_id: Option<String>,
    /// The entry point of the request.
    pub entry_point: ClientEntryPoint,
    /// A random string that identifies the request.
    pub correlator: String,
}

impl ClientRequestInfo {
    /// Request info with a fresh random correlator.
    pub fn new(entry_point: ClientEntryPoint) -> (r: Self)
        ensures
            r.main_id is None,
            r.entry_point == entry_point,
            r.correlator@.len() == CORRELATOR_LEN,
            forall|i: int|
                0 <= i < r.correlator@.len() ==> is_alphanumeric_char(r.correlator@[i]),
    {
        let correlator = Self::generate_correlator();
        Self::new_with_correlator(entry_point, correlator)
    }

    pub fn new_with_correlator(entry_point: ClientEntryPoint, correlator: String) -> (r: Self)
        ensures
            r.main_id is None,
            r.entry_point == entry_point,
            r.correlator == correlator,
    {
        ClientRequestInfo { main_id: None, entry_point, correlator }
    }

    pub fn set_main_id(&mut self, main_id: String)
        ensures
            final(self).main_id == Some(main_id),
            final(self).entry_point == old(self).entry_point,
            final(self).correlator == old(self).correlator,
    {
        self.main_id = Some(main_id);
    }

    pub fn has_main_id(&self) -> (r: bool)
        ensures
            r == self.main_id is Some,
    {
        self.main_id.is_some()
    }

    /// Sixteen random ASCII letters and digits.
    fn generate_correlator() -> (r: String)
        ensures
            r@.len() == CORRELATOR_LEN,
            forall|i: int| 0 <= i < r@.len() ==> is_alphanumeric_char(r@[i]),
    {
        let mut s = String::new();
        let mut i: usize = 0;
        while i < CORRELATOR_LEN
            invariant
                i <= CORRELATOR_LEN,
                s@.len() == i,
                forall|k: int| 0 <= k < s@.len() ==> is_alphanumeric_char(s@[k]),
            decreases CORRELATOR_LEN - i,
        {
            let b = random_alphanumeric();
            push_char(&mut s, b as char);
            i = i + 1;
        }
        s
    }
}

} // verus!
