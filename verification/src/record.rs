//! The typed DNS resource-record model.
//!
//! A [`Record`] is a closed, tagged union over the supported resource-record
//! kinds. Every variant carries the shared [`Common`] attributes (name, ttl,
//! comment, tags) plus a kind-specific value payload. The record's kind, its
//! normalized name and its value payload form its *identity key*; ttl,
//! comment, tags and the proxy flag are *mutable attributes* that may differ
//! between two records considered the same record for reconciliation.

use vstd::prelude::*;

use crate::error::Error;
use crate::name::{norm_name, normalize_name_str, valid_raw_name};

verus! {

/// The resource-record kind tags, one per supported record type.
#[derive(Clone, Copy, Debug, PartialEq, Eq, Structural)]
pub enum RecordKind {
    A,
    Aaaa,
    Caa,
    Cert,
    Cname,
    DnsKey,
    Ds,
    Https,
    Loc,
    Mx,
    Naptr,
    Ns,
    Ptr,
    Smimea,
    Srv,
    Sshfp,
    Svcb,
    Tlsa,
    Txt,
    Url,
}

/// Attributes shared by every record kind. The `name` takes part in the
/// record's identity (after normalization); `ttl`, `comment` and `tags` are
/// mutable attributes. A ttl of 1 means "automatic" (provider-chosen).
#[derive(Clone, Debug)]
pub struct Common {
    pub name: String,
    pub ttl: u32,
    pub comment: Option<String>,
    pub tags: Vec<String>,
}

/// Mathematical image of [`Common`]: every string as a sequence of
/// characters.
#[verifier::ext_equal]
pub struct CommonView {
    pub name: Seq<char>,
    pub ttl: u32,
    pub comment: Option<Seq<char>>,
    pub tags: Seq<Seq<char>>,
}

impl View for Common {
    type V = CommonView;

    open spec fn view(&self) -> CommonView {
        CommonView {
            name: self.name@,
            ttl: self.ttl,
            comment: self.comment.deep_view(),
            tags: self.tags.deep_view(),
        }
    }
}

impl DeepView for Common {
    type V = CommonView;

    open spec fn deep_view(&self) -> CommonView {
        self.view()
    }
}

/// Certification authority authorization payload.
#[derive(Clone, Debug)]
pub struct CaaData {
    pub flags: u8,
    pub tag: String,
    pub value: String,
}

#[verifier::ext_equal]
pub struct CaaDataView {
    pub flags: u8,
    pub tag: Seq<char>,
    pub value: Seq<char>,
}

impl View for CaaData {
    type V = CaaDataView;

    open spec fn view(&self) -> CaaDataView {
        CaaDataView { flags: self.flags, tag: self.tag@, value: self.value@ }
    }
}

/// Certificate record payload.
#[derive(Clone, Debug)]
pub struct CertData {
    pub algorithm: u8,
    pub certificate: String,
    pub key_tag: u16,
    pub kind: u16,
}

#[verifier::ext_equal]
pub struct CertDataView {
    pub algorithm: u8,
    pub certificate: Seq<char>,
    pub key_tag: u16,
    pub kind: u16,
}

impl View for CertData {
    type V = CertDataView;

    open spec fn view(&self) -> CertDataView {
        CertDataView {
            algorithm: self.algorithm,
            certificate: self.certificate@,
            key_tag: self.key_tag,
            kind: self.kind,
        }
    }
}

/// DNSSEC key payload.
#[derive(Clone, Debug)]
pub struct DnsKeyData {
    pub algorithm: u8,
    pub flags: u16,
    pub protocol: u8,
    pub public_key: String,
}

#[verifier::ext_equal]
pub struct DnsKeyDataView {
    pub algorithm: u8,
    pub flags: u16,
    pub protocol: u8,
    pub public_key: Seq<char>,
}

impl View for DnsKeyData {
    type V = DnsKeyDataView;

    open spec fn view(&self) -> DnsKeyDataView {
        DnsKeyDataView {
            algorithm: self.algorithm,
            flags: self.flags,
            protocol: self.protocol,
            public_key: self.public_key@,
        }
    }
}

/// Delegation signer payload.
#[derive(Clone, Debug)]
pub struct DsData {
    pub algorithm: u8,
    pub digest: String,
    pub digest_type: u8,
    pub key_tag: u16,
}

#[verifier::ext_equal]
pub struct DsDataView {
    pub algorithm: u8,
    pub digest: Seq<char>,
    pub digest_type: u8,
    pub key_tag: u16,
}

impl View for DsData {
    type V = DsDataView;

    open spec fn view(&self) -> DsDataView {
        DsDataView {
            algorithm: self.algorithm,
            digest: self.digest@,
            digest_type: self.digest_type,
            key_tag: self.key_tag,
        }
    }
}

/// HTTPS service binding payload.
#[derive(Clone, Debug)]
pub struct HttpsData {
    pub priority: u16,
    pub target: String,
    pub value: String,
}

#[verifier::ext_equal]
pub struct HttpsDataView {
    pub priority: u16,
    pub target: Seq<char>,
    pub value: Seq<char>,
}

impl View for HttpsData {
    type V = HttpsDataView;

    open spec fn view(&self) -> HttpsDataView {
        HttpsDataView { priority: self.priority, target: self.target@, value: self.value@ }
    }
}

/// Which side of the equator a location record points at.
#[derive(Clone, Copy, Debug, PartialEq, Eq, Structural)]
pub enum LatitudeDirection {
    North,
    South,
}

/// Which side of the prime meridian a location record points at.
#[derive(Clone, Copy, Debug, PartialEq, Eq, Structural)]
pub enum LongitudeDirection {
    East,
    West,
}

/// Location record payload: degrees-minutes-seconds with direction,
/// altitude, precision and size. Carries no strings, so it serves as its own
/// mathematical image.
#[derive(Clone, Copy, Debug, PartialEq, Eq, Structural)]
pub struct LocData {
    pub altitude: i32,
    pub lat_degrees: u8,
    pub lat_direction: LatitudeDirection,
    pub lat_minutes: Option<u8>,
    pub lat_seconds: Option<u8>,
    pub long_degrees: u8,
    pub long_direction: LongitudeDirection,
    pub long_minutes: Option<u8>,
    pub long_seconds: Option<u8>,
    pub precision_horz: Option<u32>,
    pub precision_vert: Option<u32>,
    pub size: Option<u32>,
}

/// Naming authority pointer payload.
#[derive(Clone, Debug)]
pub struct NaptrData {
    pub flags: String,
    pub order: u16,
    pub preference: u16,
    pub regex: String,
    pub replacement: String,
    pub service: String,
}

#[verifier::ext_equal]
pub struct NaptrDataView {
    pub flags: Seq<char>,
    pub order: u16,
    pub preference: u16,
    pub regex: Seq<char>,
    pub replacement: Seq<char>,
    pub service: Seq<char>,
}

impl View for NaptrData {
    type V = NaptrDataView;

    open spec fn view(&self) -> NaptrDataView {
        NaptrDataView {
            flags: self.flags@,
            order: self.order,
            preference: self.preference,
            regex: self.regex@,
            replacement: self.replacement@,
            service: self.service@,
        }
    }
}

/// S/MIME certificate association payload.
#[derive(Clone, Debug)]
pub struct SmimeaData {
    pub certificate: String,
    pub matching_type: u8,
    pub selector: u8,
    pub usage: u8,
}

#[verifier::ext_equal]
pub struct SmimeaDataView {
    pub certificate: Seq<char>,
    pub matching_type: u8,
    pub selector: u8,
    pub usage: u8,
}

impl View for SmimeaData {
    type V = SmimeaDataView;

    open spec fn view(&self) -> SmimeaDataView {
        SmimeaDataView {
            certificate: self.certificate@,
            matching_type: self.matching_type,
            selector: self.selector,
            usage: self.usage,
        }
    }
}

/// Service locator payload.
#[derive(Clone, Debug)]
pub struct SrvData {
    pub name: String,
    pub port: u16,
    pub priority: u16,
    pub proto: String,
    pub service: String,
    pub target: String,
    pub weight: u16,
}

#[verifier::ext_equal]
pub struct SrvDataView {
    pub name: Seq<char>,
    pub port: u16,
    pub priority: u16,
    pub proto: Seq<char>,
    pub service: Seq<char>,
    pub target: Seq<char>,
    pub weight: u16,
}

impl View for SrvData {
    type V = SrvDataView;

    open spec fn view(&self) -> SrvDataView {
        SrvDataView {
            name: self.name@,
            port: self.port,
            priority: self.priority,
            proto: self.proto@,
            service: self.service@,
            target: self.target@,
            weight: self.weight,
        }
    }
}

/// SSH fingerprint payload.
#[derive(Clone, Debug)]
pub struct SshfpData {
    pub algorithm: u8,
    pub fingerprint: String,
    pub kind: u8,
}

#[verifier::ext_equal]
pub struct SshfpDataView {
    pub algorithm: u8,
    pub fingerprint: Seq<char>,
    pub kind: u8,
}

impl View for SshfpData {
    type V = SshfpDataView;

    open spec fn view(&self) -> SshfpDataView {
        SshfpDataView {
            algorithm: self.algorithm,
            fingerprint: self.fingerprint@,
            kind: self.kind,
        }
    }
}

/// Service binding payload.
#[derive(Clone, Debug)]
pub struct SvcbData {
    pub priority: u16,
    pub target: String,
    pub value: String,
}

#[verifier::ext_equal]
pub struct SvcbDataView {
    pub priority: u16,
    pub target: Seq<char>,
    pub value: Seq<char>,
}

impl View for SvcbData {
    type V = SvcbDataView;

    open spec fn view(&self) -> SvcbDataView {
        SvcbDataView { priority: self.priority, target: self.target@, value: self.value@ }
    }
}

/// TLS certificate association payload.
#[derive(Clone, Debug)]
pub struct TlsaData {
    pub certificate: String,
    pub matching_type: u8,
    pub selector: u8,
    pub usage: u8,
}

#[verifier::ext_equal]
pub struct TlsaDataView {
    pub certificate: Seq<char>,
    pub matching_type: u8,
    pub selector: u8,
    pub usage: u8,
}

impl View for TlsaData {
    type V = TlsaDataView;

    open spec fn view(&self) -> TlsaDataView {
        TlsaDataView {
            certificate: self.certificate@,
            matching_type: self.matching_type,
            selector: self.selector,
            usage: self.usage,
        }
    }
}

/// URI record payload.
#[derive(Clone, Debug)]
pub struct UriData {
    pub content: String,
    pub weight: u16,
}

#[verifier::ext_equal]
pub struct UriDataView {
    pub content: Seq<char>,
    pub weight: u16,
}

impl View for UriData {
    type V = UriDataView;

    open spec fn view(&self) -> UriDataView {
        UriDataView { content: self.content@, weight: self.weight }
    }
}

/// Mathematical image of a record's value payload: the fields that take part
/// in its identity, with every string as a sequence of characters.
#[verifier::ext_equal]
pub enum PayloadView {
    /// A single content string (A, AAAA, CNAME, NS, PTR, TXT).
    Content(Seq<char>),
    /// A content string with a priority (MX).
    ContentPriority(Seq<char>, u16),
    Caa(CaaDataView),
    Cert(CertDataView),
    DnsKey(DnsKeyDataView),
    Ds(DsDataView),
    Https(HttpsDataView),
    Loc(LocData),
    Naptr(NaptrDataView),
    Smimea(SmimeaDataView),
    Srv(SrvDataView),
    Sshfp(SshfpDataView),
    Svcb(SvcbDataView),
    Tlsa(TlsaDataView),
    /// A structured payload with a priority (URI).
    UriPriority(UriDataView, u16),
}

/// The identity key of a record: its kind, its (normalized) name, and its
/// value payload. Two records are the same record for reconciliation iff
/// their identity keys are equal.
#[verifier::ext_equal]
pub struct IdentityKey {
    pub kind: RecordKind,
    pub name: Seq<char>,
    pub payload: PayloadView,
}

/// The mutable attributes of a record: the fields that may be updated in
/// place without making it a different record.
#[verifier::ext_equal]
pub struct AttrsKey {
    pub ttl: u32,
    pub comment: Option<Seq<char>>,
    pub tags: Seq<Seq<char>>,
    pub proxied: Option<bool>,
}

/// Mathematical image of a whole record.
#[verifier::ext_equal]
pub struct RecordView {
    pub kind: RecordKind,
    pub common: CommonView,
    pub payload: PayloadView,
    pub proxied: Option<bool>,
}

impl RecordView {
    /// The fields that identify the record across desired and remote state.
    pub open spec fn identity(self) -> IdentityKey {
        IdentityKey { kind: self.kind, name: self.common.name, payload: self.payload }
    }

    /// The fields an update may change without touching the identity.
    pub open spec fn attrs(self) -> AttrsKey {
        AttrsKey {
            ttl: self.common.ttl,
            comment: self.common.comment,
            tags: self.common.tags,
            proxied: self.proxied,
        }
    }

    /// The same record with its name rewritten.
    pub open spec fn with_name(self, n: Seq<char>) -> RecordView {
        RecordView { common: CommonView { name: n, ..self.common }, ..self }
    }

    /// The record after name normalization against apex `z`.
    pub open spec fn normalized(self, z: Seq<char>) -> RecordView {
        self.with_name(norm_name(self.common.name, z))
    }
}

/// A DNS resource record: one variant per supported kind, each carrying the
/// shared attributes and its kind-specific value payload.
#[derive(Clone, Debug)]
pub enum Record {
    A { common: Common, content: String, proxied: bool },
    Aaaa { common: Common, content: String, proxied: bool },
    Caa { common: Common, data: CaaData },
    Cert { common: Common, data: CertData },
    Cname { common: Common, content: String, proxied: bool },
    DnsKey { common: Common, data: DnsKeyData },
    Ds { common: Common, data: DsData },
    Https { common: Common, data: HttpsData },
    Loc { common: Common, data: LocData },
    Mx { common: Common, content: String, priority: u16 },
    Naptr { common: Common, data: NaptrData },
    Ns { common: Common, content: String },
    Ptr { common: Common, content: String },
    Smimea { common: Common, data: SmimeaData },
    Srv { common: Common, data: SrvData },
    Sshfp { common: Common, data: SshfpData },
    Svcb { common: Common, data: SvcbData },
    Tlsa { common: Common, data: TlsaData },
    Txt { common: Common, content: String },
    Url { common: Common, data: UriData, priority: u16 },
}

impl View for Record {
    type V = RecordView;

    open spec fn view(&self) -> RecordView {
        match self {
            Record::A { common, content, proxied } => RecordView {
                kind: RecordKind::A,
                common: common@,
                payload: PayloadView::Content(content@),
                proxied: Some(*proxied),
            },
            Record::Aaaa { common, content, proxied } => RecordView {
                kind: RecordKind::Aaaa,
                common: common@,
                payload: PayloadView::Content(content@),
                proxied: Some(*proxied),
            },
            Record::Caa { common, data } => RecordView {
                kind: RecordKind::Caa,
                common: common@,
                payload: PayloadView::Caa(data@),
                proxied: None,
            },
            Record::Cert { common, data } => RecordView {
                kind: RecordKind::Cert,
                common: common@,
                payload: PayloadView::Cert(data@),
                proxied: None,
            },
            Record::Cname { common, content, proxied } => RecordView {
                kind: RecordKind::Cname,
                common: common@,
                payload: PayloadView::Content(content@),
                proxied: Some(*proxied),
            },
            Record::DnsKey { common, data } => RecordView {
                kind: RecordKind::DnsKey,
                common: common@,
                payload: PayloadView::DnsKey(data@),
                proxied: None,
            },
            Record::Ds { common, data } => RecordView {
                kind: RecordKind::Ds,
                common: common@,
                payload: PayloadView::Ds(data@),
                proxied: None,
            },
            Record::Https { common, data } => RecordView {
                kind: RecordKind::Https,
                common: common@,
                payload: PayloadView::Https(data@),
                proxied: None,
            },
            Record::Loc { common, data } => RecordView {
                kind: RecordKind::Loc,
                common: common@,
                payload: PayloadView::Loc(*data),
                proxied: None,
            },
            Record::Mx { common, content, priority } => RecordView {
                kind: RecordKind::Mx,
                common: common@,
                payload: PayloadView::ContentPriority(content@, *priority),
                proxied: None,
            },
            Record::Naptr { common, data } => RecordView {
                kind: RecordKind::Naptr,
                common: common@,
                payload: PayloadView::Naptr(data@),
                proxied: None,
            },
            Record::Ns { common, content } => RecordView {
                kind: RecordKind::Ns,
                common: common@,
                payload: PayloadView::Content(content@),
                proxied: None,
            },
            Record::Ptr { common, content } => RecordView {
                kind: RecordKind::Ptr,
                common: common@,
                payload: PayloadView::Content(content@),
                proxied: None,
            },
            Record::Smimea { common, data } => RecordView {
                kind: RecordKind::Smimea,
                common: common@,
                payload: PayloadView::Smimea(data@),
                proxied: None,
            },
            Record::Srv { common, data } => RecordView {
                kind: RecordKind::Srv,
                common: common@,
                payload: PayloadView::Srv(data@),
                proxied: None,
            },
            Record::Sshfp { common, data } => RecordView {
                kind: RecordKind::Sshfp,
                common: common@,
                payload: PayloadView::Sshfp(data@),
                proxied: None,
            },
            Record::Svcb { common, data } => RecordView {
                kind: RecordKind::Svcb,
                common: common@,
                payload: PayloadView::Svcb(data@),
                proxied: None,
            },
            Record::Tlsa { common, data } => RecordView {
                kind: RecordKind::Tlsa,
                common: common@,
                payload: PayloadView::Tlsa(data@),
                proxied: None,
            },
            Record::Txt { common, content } => RecordView {
                kind: RecordKind::Txt,
                common: common@,
                payload: PayloadView::Content(content@),
                proxied: None,
            },
            Record::Url { common, data, priority } => RecordView {
                kind: RecordKind::Url,
                common: common@,
                payload: PayloadView::UriPriority(data@, *priority),
                proxied: None,
            },
        }
    }
}

impl DeepView for Record {
    type V = RecordView;

    open spec fn deep_view(&self) -> RecordView {
        self.view()
    }
}

/// Equality of two optional strings, character for character.
pub fn opt_str_eq(a: &Option<String>, b: &Option<String>) -> (r: bool)
    ensures
        r == (a.deep_view() == b.deep_view()),
{
    match (a, b) {
        (Option::None, Option::None) => true,
        (Option::Some(x), Option::Some(y)) => *x == *y,
        _ => false,
    }
}

/// Equality of two string lists: same length, same characters at each
/// position.
pub fn string_vec_eq(a: &Vec<String>, b: &Vec<String>) -> (r: bool)
    ensures
        r == (a.deep_view() == b.deep_view()),
{
    proof {
        assert(a.deep_view().len() == a@.len());
        assert(b.deep_view().len() == b@.len());
    }
    if a.len() != b.len() {
        return false;
    }
    let n = a.len();
    let mut i: usize = 0;
    while i < n
        invariant
            0 <= i <= n,
            n == a@.len(),
            n == b@.len(),
            forall|k: int| 0 <= k < i ==> a@[k]@ == #[trigger] b@[k]@,
        decreases n - i,
    {
        if !(a[i] == b[i]) {
            assert(a.deep_view()[i as int] != b.deep_view()[i as int]);
            return false;
        }
        i += 1;
    }
    proof {
        assert(a.deep_view() =~= b.deep_view());
    }
    true
}

fn opt_bool_eq(a: &Option<bool>, b: &Option<bool>) -> (r: bool)
    ensures
        r == (*a == *b),
{
    match (a, b) {
        (Option::None, Option::None) => true,
        (Option::Some(x), Option::Some(y)) => *x == *y,
        _ => false,
    }
}

impl Record {
    /// The attributes shared by every record kind.
    pub fn common_fields(&self) -> (c: &Common)
        ensures
            c@ == self@.common,
    {
        match self {
            Record::A { common, .. } => common,
            Record::Aaaa { common, .. } => common,
            Record::Caa { common, .. } => common,
            Record::Cert { common, .. } => common,
            Record::Cname { common, .. } => common,
            Record::DnsKey { common, .. } => common,
            Record::Ds { common, .. } => common,
            Record::Https { common, .. } => common,
            Record::Loc { common, .. } => common,
            Record::Mx { common, .. } => common,
            Record::Naptr { common, .. } => common,
            Record::Ns { common, .. } => common,
            Record::Ptr { common, .. } => common,
            Record::Smimea { common, .. } => common,
            Record::Srv { common, .. } => common,
            Record::Sshfp { common, .. } => common,
            Record::Svcb { common, .. } => common,
            Record::Tlsa { common, .. } => common,
            Record::Txt { common, .. } => common,
            Record::Url { common, .. } => common,
        }
    }

    /// The record's kind tag.
    pub fn kind(&self) -> (k: RecordKind)
        ensures
            k == self@.kind,
    {
        match self {
            Record::A { .. } => RecordKind::A,
            Record::Aaaa { .. } => RecordKind::Aaaa,
            Record::Caa { .. } => RecordKind::Caa,
            Record::Cert { .. } => RecordKind::Cert,
            Record::Cname { .. } => RecordKind::Cname,
            Record::DnsKey { .. } => RecordKind::DnsKey,
            Record::Ds { .. } => RecordKind::Ds,
            Record::Https { .. } => RecordKind::Https,
            Record::Loc { .. } => RecordKind::Loc,
            Record::Mx { .. } => RecordKind::Mx,
            Record::Naptr { .. } => RecordKind::Naptr,
            Record::Ns { .. } => RecordKind::Ns,
            Record::Ptr { .. } => RecordKind::Ptr,
            Record::Smimea { .. } => RecordKind::Smimea,
            Record::Srv { .. } => RecordKind::Srv,
            Record::Sshfp { .. } => RecordKind::Sshfp,
            Record::Svcb { .. } => RecordKind::Svcb,
            Record::Tlsa { .. } => RecordKind::Tlsa,
            Record::Txt { .. } => RecordKind::Txt,
            Record::Url { .. } => RecordKind::Url,
        }
    }

    /// The proxy flag, for the address-family kinds that carry one.
    pub fn proxied_attr(&self) -> (p: Option<bool>)
        ensures
            p == self@.proxied,
    {
        match self {
            Record::A { proxied, .. } => Some(*proxied),
            Record::Aaaa { proxied, .. } => Some(*proxied),
            Record::Cname { proxied, .. } => Some(*proxied),
            _ => None,
        }
    }
}

fn caa_data_eq(a: &CaaData, b: &CaaData) -> (r: bool)
    ensures
        r == (a@ == b@),
{
    a.flags == b.flags && a.tag == b.tag && a.value == b.value
}

fn cert_data_eq(a: &CertData, b: &CertData) -> (r: bool)
    ensures
        r == (a@ == b@),
{
    a.algorithm == b.algorithm && a.certificate == b.certificate && a.key_tag == b.key_tag
        && a.kind == b.kind
}

fn dns_key_data_eq(a: &DnsKeyData, b: &DnsKeyData) -> (r: bool)
    ensures
        r == (a@ == b@),
{
    a.algorithm == b.algorithm && a.flags == b.flags && a.protocol == b.protocol
        && a.public_key == b.public_key
}

fn ds_data_eq(a: &DsData, b: &DsData) -> (r: bool)
    ensures
        r == (a@ == b@),
{
    a.algorithm == b.algorithm && a.digest == b.digest && a.digest_type == b.digest_type
        && a.key_tag == b.key_tag
}

fn https_data_eq(a: &HttpsData, b: &HttpsData) -> (r: bool)
    ensures
        r == (a@ == b@),
{
    a.priority == b.priority && a.target == b.target && a.value == b.value
}

fn loc_data_eq(a: &LocData, b: &LocData) -> (r: bool)
    ensures
        r == (*a == *b),
{
    *a == *b
}

fn naptr_data_eq(a: &NaptrData, b: &NaptrData) -> (r: bool)
    ensures
        r == (a@ == b@),
{
    a.flags == b.flags && a.order == b.order && a.preference == b.preference && a.regex == b.regex
        && a.replacement == b.replacement && a.service == b.service
}

fn smimea_data_eq(a: &SmimeaData, b: &SmimeaData) -> (r: bool)
    ensures
        r == (a@ == b@),
{
    a.certificate == b.certificate && a.matching_type == b.matching_type
        && a.selector == b.selector && a.usage == b.usage
}

fn srv_data_eq(a: &SrvData, b: &SrvData) -> (r: bool)
    ensures
        r == (a@ == b@),
{
    a.name == b.name && a.port == b.port && a.priority == b.priority && a.proto == b.proto
        && a.service == b.service && a.target == b.target && a.weight == b.weight
}

fn sshfp_data_eq(a: &SshfpData, b: &SshfpData) -> (r: bool)
    ensures
        r == (a@ == b@),
{
    a.algorithm == b.algorithm && a.fingerprint == b.fingerprint && a.kind == b.kind
}

fn svcb_data_eq(a: &SvcbData, b: &SvcbData) -> (r: bool)
    ensures
        r == (a@ == b@),
{
    a.priority == b.priority && a.target == b.target && a.value == b.value
}

fn tlsa_data_eq(a: &TlsaData, b: &TlsaData) -> (r: bool)
    ensures
        r == (a@ == b@),
{
    a.certificate == b.certificate && a.matching_type == b.matching_type
        && a.selector == b.selector && a.usage == b.usage
}

fn uri_data_eq(a: &UriData, b: &UriData) -> (r: bool)
    ensures
        r == (a@ == b@),
{
    a.content == b.content && a.weight == b.weight
}

/// Do two records share one value payload (kind aside)?
fn payload_eq(a: &Record, b: &Record) -> (r: bool)
    requires
        a@.kind == b@.kind,
    ensures
        r == (a@.payload == b@.payload),
{
    match (a, b) {
        (Record::A { content: x, .. }, Record::A { content: y, .. }) => *x == *y,
        (Record::Aaaa { content: x, .. }, Record::Aaaa { content: y, .. }) => *x == *y,
        (Record::Caa { data: x, .. }, Record::Caa { data: y, .. }) => caa_data_eq(x, y),
        (Record::Cert { data: x, .. }, Record::Cert { data: y, .. }) => cert_data_eq(x, y),
        (Record::Cname { content: x, .. }, Record::Cname { content: y, .. }) => *x == *y,
        (Record::DnsKey { data: x, .. }, Record::DnsKey { data: y, .. }) => dns_key_data_eq(x, y),
        (Record::Ds { data: x, .. }, Record::Ds { data: y, .. }) => ds_data_eq(x, y),
        (Record::Https { data: x, .. }, Record::Https { data: y, .. }) => https_data_eq(x, y),
        (Record::Loc { data: x, .. }, Record::Loc { data: y, .. }) => loc_data_eq(x, y),
        (
            Record::Mx { content: x, priority: p, .. },
            Record::Mx { content: y, priority: q, .. },
        ) => *p == *q && *x == *y,
        (Record::Naptr { data: x, .. }, Record::Naptr { data: y, .. }) => naptr_data_eq(x, y),
        (Record::Ns { content: x, .. }, Record::Ns { content: y, .. }) => *x == *y,
        (Record::Ptr { content: x, .. }, Record::Ptr { content: y, .. }) => *x == *y,
        (Record::Smimea { data: x, .. }, Record::Smimea { data: y, .. }) => smimea_data_eq(x, y),
        (Record::Srv { data: x, .. }, Record::Srv { data: y, .. }) => srv_data_eq(x, y),
        (Record::Sshfp { data: x, .. }, Record::Sshfp { data: y, .. }) => sshfp_data_eq(x, y),
        (Record::Svcb { data: x, .. }, Record::Svcb { data: y, .. }) => svcb_data_eq(x, y),
        (Record::Tlsa { data: x, .. }, Record::Tlsa { data: y, .. }) => tlsa_data_eq(x, y),
        (Record::Txt { content: x, .. }, Record::Txt { content: y, .. }) => *x == *y,
        (
            Record::Url { data: x, priority: p, .. },
            Record::Url { data: y, priority: q, .. },
        ) => *p == *q && uri_data_eq(x, y),
        // Unreachable: the two records carry one kind tag, so they sit in
        // one of the same-variant arms above.
        _ => {
            proof {
                assert(false);
            }
            false
        },
    }
}

/// Do two records share one identity key (kind, normalized name, value
/// payload)? The names are compared as given: callers normalize both sides
/// first.
pub fn same_identity(a: &Record, b: &Record) -> (r: bool)
    ensures
        r == (a@.identity() == b@.identity()),
{
    if !(a.kind() == b.kind()) {
        return false;
    }
    if !(a.common_fields().name == b.common_fields().name) {
        return false;
    }
    payload_eq(a, b)
}

/// A value-preserving copy of an optional string.
fn copy_opt_string(a: &Option<String>) -> (r: Option<String>)
    ensures
        r == *a,
{
    match a {
        Option::None => None,
        Option::Some(s) => Some(s.clone()),
    }
}

/// A value-preserving copy of a string list.
fn copy_string_vec(a: &Vec<String>) -> (r: Vec<String>)
    ensures
        r@ == a@,
{
    let n = a.len();
    let mut out: Vec<String> = Vec::new();
    let mut i: usize = 0;
    while i < n
        invariant
            0 <= i <= n,
            n == a@.len(),
            out@.len() == i,
            forall|k: int| 0 <= k < i ==> out@[k] == a@[k],
        decreases n - i,
    {
        out.push(a[i].clone());
        i += 1;
    }
    proof {
        assert(out@ =~= a@);
    }
    out
}

impl Common {
    /// A copy with the same image.
    pub fn duplicate(&self) -> (r: Common)
        ensures
            r@ == self@,
    {
        Common {
            name: self.name.clone(),
            ttl: self.ttl,
            comment: copy_opt_string(&self.comment),
            tags: copy_string_vec(&self.tags),
        }
    }

    /// A copy whose name is rewritten to its fully-qualified form under
    /// `apex`; rejected when the raw name is empty or holds a character
    /// invalid for DNS labels.
    fn with_normalized_name(self, apex: &str) -> (r: Result<Common, Error>)
        ensures
            r is Ok <==> valid_raw_name(self@.name),
            r matches Ok(c) ==> c@ == (CommonView { name: norm_name(self@.name, apex@), ..self@ }),
            r matches Err(e) ==> e matches Error::InvalidName { name } && name@ == self@.name,
    {
        match normalize_name_str(self.name.as_str(), apex) {
            Ok(n) => Ok(Common { name: n, ttl: self.ttl, comment: self.comment, tags: self.tags }),
            Err(e) => Err(e),
        }
    }
}

impl CaaData {
    /// A copy with the same image.
    pub fn duplicate(&self) -> (r: CaaData)
        ensures
            r@ == self@,
    {
        CaaData { flags: self.flags, tag: self.tag.clone(), value: self.value.clone() }
    }
}

impl CertData {
    /// A copy with the same image.
    pub fn duplicate(&self) -> (r: CertData)
        ensures
            r@ == self@,
    {
        CertData {
            algorithm: self.algorithm,
            certificate: self.certificate.clone(),
            key_tag: self.key_tag,
            kind: self.kind,
        }
    }
}

impl DnsKeyData {
    /// A copy with the same image.
    pub fn duplicate(&self) -> (r: DnsKeyData)
        ensures
            r@ == self@,
    {
        DnsKeyData {
            algorithm: self.algorithm,
            flags: self.flags,
            protocol: self.protocol,
            public_key: self.public_key.clone(),
        }
    }
}

impl DsData {
    /// A copy with the same image.
    pub fn duplicate(&self) -> (r: DsData)
        ensures
            r@ == self@,
    {
        DsData {
            algorithm: self.algorithm,
            digest: self.digest.clone(),
            digest_type: self.digest_type,
            key_tag: self.key_tag,
        }
    }
}

impl HttpsData {
    /// A copy with the same image.
    pub fn duplicate(&self) -> (r: HttpsData)
        ensures
            r@ == self@,
    {
        HttpsData { priority: self.priority, target: self.target.clone(), value: self.value.clone() }
    }
}

impl NaptrData {
    /// A copy with the same image.
    pub fn duplicate(&self) -> (r: NaptrData)
        ensures
            r@ == self@,
    {
        NaptrData {
            flags: self.flags.clone(),
            order: self.order,
            preference: self.preference,
            regex: self.regex.clone(),
            replacement: self.replacement.clone(),
            service: self.service.clone(),
        }
    }
}

impl SmimeaData {
    /// A copy with the same image.
    pub fn duplicate(&self) -> (r: SmimeaData)
        ensures
            r@ == self@,
    {
        SmimeaData {
            certificate: self.certificate.clone(),
            matching_type: self.matching_type,
            selector: self.selector,
            usage: self.usage,
        }
    }
}

impl SrvData {
    /// A copy with the same image.
    pub fn duplicate(&self) -> (r: SrvData)
        ensures
            r@ == self@,
    {
        SrvData {
            name: self.name.clone(),
            port: self.port,
            priority: self.priority,
            proto: self.proto.clone(),
            service: self.service.clone(),
            target: self.target.clone(),
            weight: self.weight,
        }
    }
}

impl SshfpData {
    /// A copy with the same image.
    pub fn duplicate(&self) -> (r: SshfpData)
        ensures
            r@ == self@,
    {
        SshfpData {
            algorithm: self.algorithm,
            fingerprint: self.fingerprint.clone(),
            kind: self.kind,
        }
    }
}

impl SvcbData {
    /// A copy with the same image.
    pub fn duplicate(&self) -> (r: SvcbData)
        ensures
            r@ == self@,
    {
        SvcbData { priority: self.priority, target: self.target.clone(), value: self.value.clone() }
    }
}

impl TlsaData {
    /// A copy with the same image.
    pub fn duplicate(&self) -> (r: TlsaData)
        ensures
            r@ == self@,
    {
        TlsaData {
            certificate: self.certificate.clone(),
            matching_type: self.matching_type,
            selector: self.selector,
            usage: self.usage,
        }
    }
}

impl UriData {
    /// A copy with the same image.
    pub fn duplicate(&self) -> (r: UriData)
        ensures
            r@ == self@,
    {
        UriData { content: self.content.clone(), weight: self.weight }
    }
}

impl Record {
    /// A copy with the same image: same identity key and same mutable
    /// attributes.
    pub fn duplicate(&self) -> (r: Record)
        ensures
            r@ == self@,
    {
        match self {
            Record::A { common, content, proxied } => Record::A {
                common: common.duplicate(),
                content: content.clone(),
                proxied: *proxied,
            },
            Record::Aaaa { common, content, proxied } => Record::Aaaa {
                common: common.duplicate(),
                content: content.clone(),
                proxied: *proxied,
            },
            Record::Caa { common, data } => Record::Caa {
                common: common.duplicate(),
                data: data.duplicate(),
            },
            Record::Cert { common, data } => Record::Cert {
                common: common.duplicate(),
                data: data.duplicate(),
            },
            Record::Cname { common, content, proxied } => Record::Cname {
                common: common.duplicate(),
                content: content.clone(),
                proxied: *proxied,
            },
            Record::DnsKey { common, data } => Record::DnsKey {
                common: common.duplicate(),
                data: data.duplicate(),
            },
            Record::Ds { common, data } => Record::Ds {
                common: common.duplicate(),
                data: data.duplicate(),
            },
            Record::Https { common, data } => Record::Https {
                common: common.duplicate(),
                data: data.duplicate(),
            },
            Record::Loc { common, data } => Record::Loc {
                common: common.duplicate(),
                data: *data,
            },
            Record::Mx { common, content, priority } => Record::Mx {
                common: common.duplicate(),
                content: content.clone(),
                priority: *priority,
            },
            Record::Naptr { common, data } => Record::Naptr {
                common: common.duplicate(),
                data: data.duplicate(),
            },
            Record::Ns { common, content } => Record::Ns {
                common: common.duplicate(),
                content: content.clone(),
            },
            Record::Ptr { common, content } => Record::Ptr {
                common: common.duplicate(),
                content: content.clone(),
            },
            Record::Smimea { common, data } => Record::Smimea {
                common: common.duplicate(),
                data: data.duplicate(),
            },
            Record::Srv { common, data } => Record::Srv {
                common: common.duplicate(),
                data: data.duplicate(),
            },
            Record::Sshfp { common, data } => Record::Sshfp {
                common: common.duplicate(),
                data: data.duplicate(),
            },
            Record::Svcb { common, data } => Record::Svcb {
                common: common.duplicate(),
                data: data.duplicate(),
            },
            Record::Tlsa { common, data } => Record::Tlsa {
                common: common.duplicate(),
                data: data.duplicate(),
            },
            Record::Txt { common, content } => Record::Txt {
                common: common.duplicate(),
                content: content.clone(),
            },
            Record::Url { common, data, priority } => Record::Url {
                common: common.duplicate(),
                data: data.duplicate(),
                priority: *priority,
            },
        }
    }

    /// Returns a record like this one with its name rewritten to the
    /// fully-qualified form under `zone_name`; rejects a name that is empty
    /// or holds a character invalid for DNS labels.
    pub fn normalize_name(self, zone_name: &str) -> (r: Result<Record, Error>)
        ensures
            r is Ok <==> valid_raw_name(self@.common.name),
            r matches Ok(rec) ==> rec@ == self@.normalized(zone_name@),
            r matches Err(e) ==> e matches Error::InvalidName { name } && name@ == self@.common.name,
    {
        match self {
            Record::A { common, content, proxied } => match common.with_normalized_name(zone_name) {
                Ok(c) => Ok(Record::A { common: c, content, proxied }),
                Err(e) => Err(e),
            },
            Record::Aaaa { common, content, proxied } => match common.with_normalized_name(
                zone_name,
            ) {
                Ok(c) => Ok(Record::Aaaa { common: c, content, proxied }),
                Err(e) => Err(e),
            },
            Record::Caa { common, data } => match common.with_normalized_name(zone_name) {
                Ok(c) => Ok(Record::Caa { common: c, data }),
                Err(e) => Err(e),
            },
            Record::Cert { common, data } => match common.with_normalized_name(zone_name) {
                Ok(c) => Ok(Record::Cert { common: c, data }),
                Err(e) => Err(e),
            },
            Record::Cname { common, content, proxied } => match common.with_normalized_name(
                zone_name,
            ) {
                Ok(c) => Ok(Record::Cname { common: c, content, proxied }),
                Err(e) => Err(e),
            },
            Record::DnsKey { common, data } => match common.with_normalized_name(zone_name) {
                Ok(c) => Ok(Record::DnsKey { common: c, data }),
                Err(e) => Err(e),
            },
            Record::Ds { common, data } => match common.with_normalized_name(zone_name) {
                Ok(c) => Ok(Record::Ds { common: c, data }),
                Err(e) => Err(e),
            },
            Record::Https { common, data } => match common.with_normalized_name(zone_name) {
                Ok(c) => Ok(Record::Https { common: c, data }),
                Err(e) => Err(e),
            },
            Record::Loc { common, data } => match common.with_normalized_name(zone_name) {
                Ok(c) => Ok(Record::Loc { common: c, data }),
                Err(e) => Err(e),
            },
            Record::Mx { common, content, priority } => match common.with_normalized_name(
                zone_name,
            ) {
                Ok(c) => Ok(Record::Mx { common: c, content, priority }),
                Err(e) => Err(e),
            },
            Record::Naptr { common, data } => match common.with_normalized_name(zone_name) {
                Ok(c) => Ok(Record::Naptr { common: c, data }),
                Err(e) => Err(e),
            },
            Record::Ns { common, content } => match common.with_normalized_name(zone_name) {
                Ok(c) => Ok(Record::Ns { common: c, content }),
                Err(e) => Err(e),
            },
            Record::Ptr { common, content } => match common.with_normalized_name(zone_name) {
                Ok(c) => Ok(Record::Ptr { common: c, content }),
                Err(e) => Err(e),
            },
            Record::Smimea { common, data } => match common.with_normalized_name(zone_name) {
                Ok(c) => Ok(Record::Smimea { common: c, data }),
                Err(e) => Err(e),
            },
            Record::Srv { common, data } => match common.with_normalized_name(zone_name) {
                Ok(c) => Ok(Record::Srv { common: c, data }),
                Err(e) => Err(e),
            },
            Record::Sshfp { common, data } => match common.with_normalized_name(zone_name) {
                Ok(c) => Ok(Record::Sshfp { common: c, data }),
                Err(e) => Err(e),
            },
            Record::Svcb { common, data } => match common.with_normalized_name(zone_name) {
                Ok(c) => Ok(Record::Svcb { common: c, data }),
                Err(e) => Err(e),
            },
            Record::Tlsa { common, data } => match common.with_normalized_name(zone_name) {
                Ok(c) => Ok(Record::Tlsa { common: c, data }),
                Err(e) => Err(e),
            },
            Record::Txt { common, content } => match common.with_normalized_name(zone_name) {
                Ok(c) => Ok(Record::Txt { common: c, content }),
                Err(e) => Err(e),
            },
            Record::Url { common, data, priority } => match common.with_normalized_name(
                zone_name,
            ) {
                Ok(c) => Ok(Record::Url { common: c, data, priority }),
                Err(e) => Err(e),
            },
        }
    }
}

/// The image of the restrictive-email SPF record: a TXT record at the zone
/// apex refusing every sender.
pub open spec fn spf_view() -> RecordView {
    RecordView {
        kind: RecordKind::Txt,
        common: CommonView {
            name: "@"@,
            ttl: 1,
            comment: Some("SPF record automagically added by puffy blowhog"@),
            tags: seq![],
        },
        payload: PayloadView::Content("v=spf1 -all"@),
        proxied: None,
    }
}

/// The image of the restrictive-email DKIM record: a TXT record at the
/// wildcard DKIM selector domain publishing an empty key.
pub open spec fn dkim_view() -> RecordView {
    RecordView {
        kind: RecordKind::Txt,
        common: CommonView {
            name: "*._domainkey"@,
            ttl: 1,
            comment: Some("DKIM record automagically added by puffy blowhog"@),
            tags: seq![],
        },
        payload: PayloadView::Content("v=DKIM1; p="@),
        proxied: None,
    }
}

/// The image of the restrictive-email DMARC record: a TXT record at the
/// conventional `_dmarc` subdomain rejecting everything, strictly aligned.
pub open spec fn dmarc_view() -> RecordView {
    RecordView {
        kind: RecordKind::Txt,
        common: CommonView {
            name: "_dmarc"@,
            ttl: 1,
            comment: Some("DMARC record automagically added by puffy blowhog"@),
            tags: seq![],
        },
        payload: PayloadView::Content(
            "v=DMARC1; p=reject; sp=reject; adkim=s; aspf=s;"@,
        ),
        proxied: None,
    }
}

impl Record {
    /// The restrictive-email SPF policy record. Every call returns a record
    /// with one fixed image, so identity comparison against previously
    /// created remote records is stable.
    pub fn restrictive_spf() -> (r: Record)
        ensures
            r@ == spf_view(),
    {
        let r = Record::Txt {
            common: Common {
                name: "@".to_owned(),
                ttl: 1,
                comment: Some(
                    "SPF record automagically added by puffy blowhog".to_owned(),
                ),
                tags: Vec::new(),
            },
            content: "v=spf1 -all".to_owned(),
        };
        proof {
            assert(r@ =~= spf_view());
        }
        r
    }

    /// The restrictive-email DKIM policy record; one fixed image, as for
    /// [`Record::restrictive_spf`].
    pub fn restrictive_dkim() -> (r: Record)
        ensures
            r@ == dkim_view(),
    {
        let r = Record::Txt {
            common: Common {
                name: "*._domainkey".to_owned(),
                ttl: 1,
                comment: Some(
                    "DKIM record automagically added by puffy blowhog".to_owned(),
                ),
                tags: Vec::new(),
            },
            content: "v=DKIM1; p=".to_owned(),
        };
        proof {
            assert(r@ =~= dkim_view());
        }
        r
    }

    /// The restrictive-email DMARC policy record; one fixed image, as for
    /// [`Record::restrictive_spf`].
    pub fn restrictive_dmarc() -> (r: Record)
        ensures
            r@ == dmarc_view(),
    {
        let r = Record::Txt {
            common: Common {
                name: "_dmarc".to_owned(),
                ttl: 1,
                comment: Some(
                    "DMARC record automagically added by puffy blowhog".to_owned(),
                ),
                tags: Vec::new(),
            },
            content: "v=DMARC1; p=reject; sp=reject; adkim=s; aspf=s;".to_owned(),
        };
        proof {
            assert(r@ =~= dmarc_view());
        }
        r
    }
}

/// Do two records agree on every mutable attribute (ttl, comment, tags,
/// proxy flag)?
pub fn same_attrs(a: &Record, b: &Record) -> (r: bool)
    ensures
        r == (a@.attrs() == b@.attrs()),
{
    let ca = a.common_fields();
    let cb = b.common_fields();
    let r = ca.ttl == cb.ttl && opt_str_eq(&ca.comment, &cb.comment)
        && string_vec_eq(&ca.tags, &cb.tags) && opt_bool_eq(&a.proxied_attr(), &b.proxied_attr());
    proof {
        if r {
            assert(a@.attrs() =~= b@.attrs());
        }
    }
    r
}

} // verus!
