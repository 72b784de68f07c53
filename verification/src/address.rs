//! Local addresses of the station, as the module reports them.
use crate::error::AddressErrors;
use embedded_nal::{Ipv4Addr, Ipv6Addr};
use vstd::prelude::*;
use vstd::utf8::encode_utf8;

verus! {

/// IPv4 address of `embedded_nal`, carried through as an opaque value.
#[verifier::external_type_specification]
#[verifier::external_body]
pub struct ExIpv4Addr(Ipv4Addr);

/// IPv6 address of `embedded_nal`, carried through as an opaque value.
#[verifier::external_type_specification]
#[verifier::external_body]
pub struct ExIpv6Addr(Ipv6Addr);

/// Fixed capacity string of `heapless`, carried through as an opaque value.
#[verifier::external_type_specification]
#[verifier::external_body]
pub struct ExHeaplessString<const N: usize>(heapless::String<N>);

/// Fixed capacity vector of `heapless`, carried through as an opaque value.
#[verifier::external_type_specification]
#[verifier::external_body]
#[verifier::reject_recursive_types(T)]
pub struct ExHeaplessVec<T, const N: usize>(heapless::Vec<T, N>);

/// What `Ipv4Addr::from_str` makes of a text: the address, or `None` where
/// the text is no IPv4 address.
pub uninterp spec fn parsed_ipv4(text: Seq<char>) -> Option<Ipv4Addr>;

/// What `Ipv6Addr::from_str` makes of a text: the address, or `None` where
/// the text is no IPv6 address.
pub uninterp spec fn parsed_ipv6(text: Seq<char>) -> Option<Ipv6Addr>;

/// The characters that a stored MAC address holds.
pub uninterp spec fn mac_text(mac: heapless::String<17>) -> Seq<char>;

/// The records that an answer to the address query holds, in their order.
pub uninterp spec fn records_of(responses: heapless::Vec<LocalAddressResponse, 4>) -> Seq<
    LocalAddressResponse,
>;

/// Largest number of records in one answer to the address query.
pub const MAX_RECORDS: usize = 4;

/// Longest MAC address text in bytes, `aa:bb:cc:dd:ee:ff`.
pub const MAC_LENGTH: usize = 17;

/// Calls `heapless::Vec::as_slice`, which hands out the records that the
/// vector holds, in their order. A vector of capacity 4 holds at most 4.
#[verifier::external_body]
fn as_records(responses: &heapless::Vec<LocalAddressResponse, 4>) -> (records: &[
    LocalAddressResponse
])
    ensures
        records@ == records_of(*responses),
        records@.len() <= MAX_RECORDS,
{
    responses.as_slice()
}

/// Calls `Ipv4Addr::from_str` of `embedded_nal`. The parser reads the text
/// and nothing else, so its result is a function of the text; a parse error
/// becomes `None`.
#[verifier::external_body]
fn parse_ipv4(text: &str) -> (address: Option<Ipv4Addr>)
    ensures
        address == parsed_ipv4(text@),
{
    <Ipv4Addr as core::str::FromStr>::from_str(text).ok()
}

/// Calls `Ipv6Addr::from_str` of `embedded_nal`. The parser reads the text
/// and nothing else, so its result is a function of the text; a parse error
/// becomes `None`.
#[verifier::external_body]
fn parse_ipv6(text: &str) -> (address: Option<Ipv6Addr>)
    ensures
        address == parsed_ipv6(text@),
{
    <Ipv6Addr as core::str::FromStr>::from_str(text).ok()
}

/// Calls `heapless::String::<17>::from`, which copies the text and panics
/// where it is longer than the capacity of 17 bytes. The new string holds the
/// characters of the text.
#[verifier::external_body]
fn mac_from_str(text: &str) -> (mac: heapless::String<17>)
    requires
        encode_utf8(text@).len() <= MAC_LENGTH,
    ensures
        mac_text(mac) == text@,
{
    heapless::String::from(text)
}

/// One address record of the module's answer to the address query.
#[derive(Clone, Debug, PartialEq, Eq)]
pub struct LocalAddressResponse {
    /// Tag that names the kind of address
    pub address_type: Vec<u8>,
    /// The address as text
    pub address: String,
}

/// Kind of an address record, told by its tag.
#[derive(Clone, Copy, Debug, PartialEq, Eq)]
pub enum AddressKind {
    /// `STAIP`: the IPv4 address
    Ipv4,
    /// `STAIP6LL`: the link local IPv6 address
    Ipv6LinkLocal,
    /// `STAIP6GL`: the global IPv6 address
    Ipv6Global,
    /// `STAMAC`: the MAC address
    Mac,
    /// Any other tag
    Unknown,
}

/// The tag `STAIP`.
pub open spec fn tag_ipv4() -> Seq<u8> {
    seq![0x53u8, 0x54u8, 0x41u8, 0x49u8, 0x50u8]
}

/// The tag `STAIP6LL`.
pub open spec fn tag_ipv6_link_local() -> Seq<u8> {
    seq![0x53u8, 0x54u8, 0x41u8, 0x49u8, 0x50u8, 0x36u8, 0x4cu8, 0x4cu8]
}

/// The tag `STAIP6GL`.
pub open spec fn tag_ipv6_global() -> Seq<u8> {
    seq![0x53u8, 0x54u8, 0x41u8, 0x49u8, 0x50u8, 0x36u8, 0x47u8, 0x4cu8]
}

/// The tag `STAMAC`.
pub open spec fn tag_mac() -> Seq<u8> {
    seq![0x53u8, 0x54u8, 0x41u8, 0x4du8, 0x41u8, 0x43u8]
}

/// The kind that a tag names.
pub open spec fn kind_of(tag: Seq<u8>) -> AddressKind {
    if tag == tag_ipv4() {
        AddressKind::Ipv4
    } else if tag == tag_ipv6_link_local() {
        AddressKind::Ipv6LinkLocal
    } else if tag == tag_ipv6_global() {
        AddressKind::Ipv6Global
    } else if tag == tag_mac() {
        AddressKind::Mac
    } else {
        AddressKind::Unknown
    }
}

/// Number of bytes that a text takes.
pub open spec fn byte_length(text: Seq<char>) -> nat {
    encode_utf8(text).len()
}

/// A record can be taken over: an address parses, a MAC address fits, and
/// a record of unknown kind is passed over.
pub open spec fn acceptable(record: LocalAddressResponse) -> bool {
    match kind_of(record.address_type@) {
        AddressKind::Ipv4 => parsed_ipv4(record.address@) is Some,
        AddressKind::Ipv6LinkLocal | AddressKind::Ipv6Global => parsed_ipv6(record.address@)
            is Some,
        AddressKind::Mac => byte_length(record.address@) <= MAC_LENGTH,
        AddressKind::Unknown => true,
    }
}

/// Text of the last record of the given kind, if there is one.
pub open spec fn latest_text(records: Seq<LocalAddressResponse>, kind: AddressKind) -> Option<
    Seq<char>,
>
    decreases records.len(),
{
    if records.len() == 0 {
        None
    } else if kind_of(records.last().address_type@) == kind {
        Some(records.last().address@)
    } else {
        latest_text(records.drop_last(), kind)
    }
}

/// The IPv4 address that the last record of kind `Ipv4` gives.
pub open spec fn latest_ipv4(records: Seq<LocalAddressResponse>) -> Option<Ipv4Addr> {
    match latest_text(records, AddressKind::Ipv4) {
        Some(text) => parsed_ipv4(text),
        None => None,
    }
}

/// The IPv6 address that the last record of the given kind gives.
pub open spec fn latest_ipv6(records: Seq<LocalAddressResponse>, kind: AddressKind) -> Option<
    Ipv6Addr,
> {
    match latest_text(records, kind) {
        Some(text) => parsed_ipv6(text),
        None => None,
    }
}

/// The stored MAC address holds the text of the last record of kind `Mac`.
pub open spec fn mac_matches(
    mac: Option<heapless::String<17>>,
    records: Seq<LocalAddressResponse>,
) -> bool {
    match mac {
        Some(stored) => latest_text(records, AddressKind::Mac) == Some(mac_text(stored)),
        None => latest_text(records, AddressKind::Mac) is None,
    }
}

/// What one address record gives: its kind, and the address where the text
/// could be taken over.
#[derive(Clone, Debug, PartialEq, Eq)]
pub enum AddressValue {
    /// The IPv4 address, or `None` if the text is no such address
    Ipv4(Option<Ipv4Addr>),
    /// The link local IPv6 address, or `None` if the text is no such address
    Ipv6LinkLocal(Option<Ipv6Addr>),
    /// The global IPv6 address, or `None` if the text is no such address
    Ipv6Global(Option<Ipv6Addr>),
    /// The MAC address, or `None` if the text is too long
    Mac(Option<heapless::String<17>>),
    /// A record of unknown kind
    Unknown,
}

impl AddressValue {
    /// The value is what the record gives.
    pub open spec fn is_value_of(self, record: LocalAddressResponse) -> bool {
        match kind_of(record.address_type@) {
            AddressKind::Ipv4 => self == AddressValue::Ipv4(parsed_ipv4(record.address@)),
            AddressKind::Ipv6LinkLocal => self == AddressValue::Ipv6LinkLocal(
                parsed_ipv6(record.address@),
            ),
            AddressKind::Ipv6Global => self == AddressValue::Ipv6Global(
                parsed_ipv6(record.address@),
            ),
            AddressKind::Mac => match self {
                AddressValue::Mac(Some(mac)) => byte_length(record.address@) <= MAC_LENGTH
                    && mac_text(mac) == record.address@,
                AddressValue::Mac(None) => byte_length(record.address@) > MAC_LENGTH,
                _ => false,
            },
            AddressKind::Unknown => self is Unknown,
        }
    }

    /// Reads the value of one record: an address is parsed, and a MAC address
    /// is stored unless it is longer than 17 bytes.
    pub fn of_record(record: &LocalAddressResponse) -> (value: Self)
        ensures
            value.is_value_of(*record),
    {
        let text = record.address.as_str();
        match address_kind(record.address_type.as_slice()) {
            AddressKind::Ipv4 => AddressValue::Ipv4(parse_ipv4(text)),
            AddressKind::Ipv6LinkLocal => AddressValue::Ipv6LinkLocal(parse_ipv6(text)),
            AddressKind::Ipv6Global => AddressValue::Ipv6Global(parse_ipv6(text)),
            AddressKind::Mac => {
                if text.as_bytes().len() > MAC_LENGTH {
                    AddressValue::Mac(None)
                } else {
                    AddressValue::Mac(Some(mac_from_str(text)))
                }
            },
            AddressKind::Unknown => AddressValue::Unknown,
        }
    }
}

/// Tells whether two byte strings are equal.
fn bytes_equal(left: &[u8], right: &[u8]) -> (equal: bool)
    ensures
        equal == (left@ == right@),
{
    if left.len() != right.len() {
        return false;
    }
    let mut i: usize = 0;
    while i < left.len()
        invariant
            i <= left@.len(),
            left@.len() == right@.len(),
            forall|k: int| 0 <= k < i ==> left@[k] == right@[k],
        decreases left@.len() - i,
    {
        if left[i] != right[i] {
            return false;
        }
        i = i + 1;
    }
    assert(left@ =~= right@);
    true
}

/// Tells the kind of an address record by its tag.
pub fn address_kind(tag: &[u8]) -> (kind: AddressKind)
    ensures
        kind == kind_of(tag@),
{
    let ipv4: [u8; 5] = [0x53, 0x54, 0x41, 0x49, 0x50];
    let link_local: [u8; 8] = [0x53, 0x54, 0x41, 0x49, 0x50, 0x36, 0x4c, 0x4c];
    let global: [u8; 8] = [0x53, 0x54, 0x41, 0x49, 0x50, 0x36, 0x47, 0x4c];
    let mac: [u8; 6] = [0x53, 0x54, 0x41, 0x4d, 0x41, 0x43];
    assert(ipv4@ =~= tag_ipv4());
    assert(link_local@ =~= tag_ipv6_link_local());
    assert(global@ =~= tag_ipv6_global());
    assert(mac@ =~= tag_mac());
    if bytes_equal(tag, ipv4.as_slice()) {
        AddressKind::Ipv4
    } else if bytes_equal(tag, link_local.as_slice()) {
        AddressKind::Ipv6LinkLocal
    } else if bytes_equal(tag, global.as_slice()) {
        AddressKind::Ipv6Global
    } else if bytes_equal(tag, mac.as_slice()) {
        AddressKind::Mac
    } else {
        AddressKind::Unknown
    }
}

/// Local IP and MAC addresses
#[derive(Clone, Debug, PartialEq, Eq)]
pub struct LocalAddress {
    /// Local IPv4 address if assigned
    pub ipv4: Option<Ipv4Addr>,
    /// Local MAC address
    pub mac: Option<heapless::String<17>>,
    /// Link local IPv6 address if assigned
    pub ipv6_link_local: Option<Ipv6Addr>,
    /// Global IPv6 address if assigned
    pub ipv6_global: Option<Ipv6Addr>,
}

impl Default for LocalAddress {
    fn default() -> (address: Self)
        ensures
            address.ipv4 is None,
            address.mac is None,
            address.ipv6_link_local is None,
            address.ipv6_global is None,
    {
        LocalAddress { ipv4: None, mac: None, ipv6_link_local: None, ipv6_global: None }
    }
}

impl LocalAddress {
    /// The addresses are those that the records give, the last record of
    /// each kind deciding.
    pub open spec fn describes(self, records: Seq<LocalAddressResponse>) -> bool {
        &&& self.ipv4 == latest_ipv4(records)
        &&& self.ipv6_link_local == latest_ipv6(records, AddressKind::Ipv6LinkLocal)
        &&& self.ipv6_global == latest_ipv6(records, AddressKind::Ipv6Global)
        &&& mac_matches(self.mac, records)
    }

    /// What the collection of the given records returns: an error if and
    /// only if some record cannot be taken over, else the addresses that the
    /// records give.
    pub open spec fn from_responses_ensures(
        records: Seq<LocalAddressResponse>,
        result: Result<Self, AddressErrors>,
    ) -> bool {
        &&& result is Ok <==> forall|i: int| 0 <= i < records.len() ==> acceptable(records[i])
        &&& result is Err ==> result == Err::<Self, AddressErrors>(
            AddressErrors::AddressParseError,
        )
        &&& result matches Ok(address) ==> address.describes(records)
    }

    /// The addresses after one more record: an address of the record's kind
    /// replaces the one before, a record of unknown kind changes nothing, and
    /// a record whose text could not be taken over is an error.
    pub open spec fn updated_with(self, value: AddressValue) -> Result<Self, AddressErrors> {
        match value {
            AddressValue::Ipv4(Some(address)) => Ok(LocalAddress { ipv4: Some(address), ..self }),
            AddressValue::Ipv6LinkLocal(Some(address)) => Ok(
                LocalAddress { ipv6_link_local: Some(address), ..self },
            ),
            AddressValue::Ipv6Global(Some(address)) => Ok(
                LocalAddress { ipv6_global: Some(address), ..self },
            ),
            AddressValue::Mac(Some(mac)) => Ok(LocalAddress { mac: Some(mac), ..self }),
            AddressValue::Unknown => Ok(self),
            _ => Err(AddressErrors::AddressParseError),
        }
    }

    /// Takes over the value of one record.
    pub fn updated(self, value: AddressValue) -> (r: Result<Self, AddressErrors>)
        ensures
            r == self.updated_with(value),
    {
        let mut data = self;
        match value {
            AddressValue::Ipv4(Some(address)) => {
                data.ipv4 = Some(address);
            },
            AddressValue::Ipv6LinkLocal(Some(address)) => {
                data.ipv6_link_local = Some(address);
            },
            AddressValue::Ipv6Global(Some(address)) => {
                data.ipv6_global = Some(address);
            },
            AddressValue::Mac(Some(mac)) => {
                data.mac = Some(mac);
            },
            AddressValue::Unknown => {},
            _ => {
                return Err(AddressErrors::AddressParseError);
            },
        }
        Ok(data)
    }

    /// Collects the addresses that the records give.
    ///
    /// Fails if and only if some record holds an address that does not parse
    /// or a MAC address of more than 17 bytes. Records with an unknown tag are
    /// ignored, and of several records of one kind the last one counts.
    pub fn from_records(records: &[LocalAddressResponse]) -> (r: Result<Self, AddressErrors>)
        ensures
            Self::from_responses_ensures(records@, r),
    {
        let mut data = LocalAddress::default();
        let mut i: usize = 0;
        while i < records.len()
            invariant
                i <= records@.len(),
                forall|k: int| 0 <= k < i ==> acceptable(records@[k]),
                data.describes(records@.take(i as int)),
            decreases records@.len() - i,
        {
            proof {
                let before = records@.take(i as int);
                let after = records@.take(i + 1);
                assert(after.drop_last() =~= before);
                assert(after.last() == records@[i as int]);
            }
            match data.updated(AddressValue::of_record(&records[i])) {
                Ok(updated) => {
                    data = updated;
                },
                Err(error) => {
                    return Err(error);
                },
            }
            i = i + 1;
        }
        assert(records@.take(i as int) =~= records@);
        Ok(data)
    }

    /// Collects the addresses of the module's answer, which holds up to 4
    /// records: the result is that of [`LocalAddress::from_records`] on the
    /// records that the answer holds.
    pub fn from_responses(responses: heapless::Vec<LocalAddressResponse, 4>) -> (r: Result<
        Self,
        AddressErrors,
    >)
        ensures
            Self::from_responses_ensures(records_of(responses), r),
            records_of(responses).len() <= MAX_RECORDS,
    {
        Self::from_records(as_records(&responses))
    }
}

} // verus!
