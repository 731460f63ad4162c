//! The metadata kept about one address, and the record that joins it with a
//! participant.

use crate::validator::{clone_text, text_view, ValidatorInfo, ValidatorView};
use vstd::prelude::*;

verus! {

/// A geographic coordinate in degrees, held as the bit pattern of its
/// IEEE 754 double. Coordinates are carried from the provider to the output
/// unchanged; nothing here computes with them.
#[derive(Clone, Copy, Debug, PartialEq, Eq, Structural)]
pub struct Coordinate {
    pub bits: u64,
}

/// Metadata about one address. What the provider sends fills the geolocation
/// and network fields; `pubkey`, `stake`, `total_slots` and `ip_address` are
/// set from the participant when the two are joined.
#[derive(Debug, PartialEq, Eq)]
pub struct ValidatorIpData {
    /// Public key of the participant the record belongs to.
    pub pubkey: Option<String>,
    /// Stake weight of the participant.
    pub stake: Option<u64>,
    /// Number of slots assigned to the participant.
    pub total_slots: Option<u64>,
    /// The address the metadata describes.
    pub ip_address: Option<String>,
    /// Code of the continent.
    pub continent_code: Option<String>,
    /// Name of the continent.
    pub continent_name: Option<String>,
    /// Code of the country.
    pub country_code: Option<String>,
    /// Name of the country.
    pub country_name: Option<String>,
    /// Whether the country is a member of the European Union.
    pub is_eu_member: bool,
    /// Code of the country's currency.
    pub currency_code: Option<String>,
    /// Name of the country's currency.
    pub currency_name: Option<String>,
    /// International calling prefix of the country.
    pub phone_prefix: Option<String>,
    /// Code of the state or province.
    pub state_prov_code: Option<String>,
    /// Name of the state or province.
    pub state_prov: Option<String>,
    /// Name of the district.
    pub district: Option<String>,
    /// Name of the city.
    pub city: Option<String>,
    /// Identifier of the place in the GeoNames database.
    pub geoname_id: u64,
    /// Offset of the local time zone from GMT.
    pub gmt_offset: i64,
    /// Name of the time zone.
    pub time_zone: Option<String>,
    /// Latitude of the place.
    pub latitude: Coordinate,
    /// Longitude of the place.
    pub longitude: Coordinate,
    /// Code of the nearest weather station.
    pub weather_code: Option<String>,
    /// Number of the autonomous system that announces the address.
    pub as_number: u64,
    /// Name of the autonomous system.
    pub as_name: Option<String>,
    /// Name of the internet service provider.
    pub isp: Option<String>,
    /// Kind of use the address is put to.
    pub usage_type: Option<String>,
    /// Name of the organization that holds the address.
    pub organization: Option<String>,
}

/// The mathematical content of a [`ValidatorIpData`].
pub struct IpDataView {
    pub pubkey: Option<Seq<char>>,
    pub stake: Option<u64>,
    pub total_slots: Option<u64>,
    pub ip_address: Option<Seq<char>>,
    pub continent_code: Option<Seq<char>>,
    pub continent_name: Option<Seq<char>>,
    pub country_code: Option<Seq<char>>,
    pub country_name: Option<Seq<char>>,
    pub is_eu_member: bool,
    pub currency_code: Option<Seq<char>>,
    pub currency_name: Option<Seq<char>>,
    pub phone_prefix: Option<Seq<char>>,
    pub state_prov_code: Option<Seq<char>>,
    pub state_prov: Option<Seq<char>>,
    pub district: Option<Seq<char>>,
    pub city: Option<Seq<char>>,
    pub geoname_id: u64,
    pub gmt_offset: i64,
    pub time_zone: Option<Seq<char>>,
    pub latitude: Coordinate,
    pub longitude: Coordinate,
    pub weather_code: Option<Seq<char>>,
    pub as_number: u64,
    pub as_name: Option<Seq<char>>,
    pub isp: Option<Seq<char>>,
    pub usage_type: Option<Seq<char>>,
    pub organization: Option<Seq<char>>,
}

impl View for ValidatorIpData {
    type V = IpDataView;

    open spec fn view(&self) -> IpDataView {
        IpDataView {
            pubkey: text_view(self.pubkey),
            stake: self.stake,
            total_slots: self.total_slots,
            ip_address: text_view(self.ip_address),
            continent_code: text_view(self.continent_code),
            continent_name: text_view(self.continent_name),
            country_code: text_view(self.country_code),
            country_name: text_view(self.country_name),
            is_eu_member: self.is_eu_member,
            currency_code: text_view(self.currency_code),
            currency_name: text_view(self.currency_name),
            phone_prefix: text_view(self.phone_prefix),
            state_prov_code: text_view(self.state_prov_code),
            state_prov: text_view(self.state_prov),
            district: text_view(self.district),
            city: text_view(self.city),
            geoname_id: self.geoname_id,
            gmt_offset: self.gmt_offset,
            time_zone: text_view(self.time_zone),
            latitude: self.latitude,
            longitude: self.longitude,
            weather_code: text_view(self.weather_code),
            as_number: self.as_number,
            as_name: text_view(self.as_name),
            isp: text_view(self.isp),
            usage_type: text_view(self.usage_type),
            organization: text_view(self.organization),
        }
    }
}

impl DeepView for ValidatorIpData {
    type V = IpDataView;

    open spec fn deep_view(&self) -> IpDataView {
        self@
    }
}

impl Clone for ValidatorIpData {
    fn clone(&self) -> (copy: Self)
        ensures
            copy == *self,
    {
        ValidatorIpData {
            pubkey: clone_text(&self.pubkey),
            stake: self.stake,
            total_slots: self.total_slots,
            ip_address: clone_text(&self.ip_address),
            continent_code: clone_text(&self.continent_code),
            continent_name: clone_text(&self.continent_name),
            country_code: clone_text(&self.country_code),
            country_name: clone_text(&self.country_name),
            is_eu_member: self.is_eu_member,
            currency_code: clone_text(&self.currency_code),
            currency_name: clone_text(&self.currency_name),
            phone_prefix: clone_text(&self.phone_prefix),
            state_prov_code: clone_text(&self.state_prov_code),
            state_prov: clone_text(&self.state_prov),
            district: clone_text(&self.district),
            city: clone_text(&self.city),
            geoname_id: self.geoname_id,
            gmt_offset: self.gmt_offset,
            time_zone: clone_text(&self.time_zone),
            latitude: self.latitude,
            longitude: self.longitude,
            weather_code: clone_text(&self.weather_code),
            as_number: self.as_number,
            as_name: clone_text(&self.as_name),
            isp: clone_text(&self.isp),
            usage_type: clone_text(&self.usage_type),
            organization: clone_text(&self.organization),
        }
    }
}

impl Default for ValidatorIpData {
    /// The record that says nothing: no text, no flag, zero for every number.
    fn default() -> (empty: Self)
        ensures
            empty@ == blank(),
    {
        ValidatorIpData {
            pubkey: None,
            stake: None,
            total_slots: None,
            ip_address: None,
            continent_code: None,
            continent_name: None,
            country_code: None,
            country_name: None,
            is_eu_member: false,
            currency_code: None,
            currency_name: None,
            phone_prefix: None,
            state_prov_code: None,
            state_prov: None,
            district: None,
            city: None,
            geoname_id: 0,
            gmt_offset: 0,
            time_zone: None,
            latitude: Coordinate { bits: 0 },
            longitude: Coordinate { bits: 0 },
            weather_code: None,
            as_number: 0,
            as_name: None,
            isp: None,
            usage_type: None,
            organization: None,
        }
    }
}

/// The content of the record that says nothing.
pub open spec fn blank() -> IpDataView {
    IpDataView {
        pubkey: None,
        stake: None,
        total_slots: None,
        ip_address: None,
        continent_code: None,
        continent_name: None,
        country_code: None,
        country_name: None,
        is_eu_member: false,
        currency_code: None,
        currency_name: None,
        phone_prefix: None,
        state_prov_code: None,
        state_prov: None,
        district: None,
        city: None,
        geoname_id: 0,
        gmt_offset: 0,
        time_zone: None,
        latitude: Coordinate { bits: 0 },
        longitude: Coordinate { bits: 0 },
        weather_code: None,
        as_number: 0,
        as_name: None,
        isp: None,
        usage_type: None,
        organization: None,
    }
}

/// The metadata `data` with the address field set to `ip`, the key under
/// which the provider sent it.
pub open spec fn stamped(ip: Seq<char>, data: IpDataView) -> IpDataView {
    IpDataView { ip_address: Some(ip), ..data }
}

/// The record for `validator`: the metadata `data`, with address, identity,
/// stake and slot count taken from the participant.
pub open spec fn merged(validator: ValidatorView, data: IpDataView) -> IpDataView {
    IpDataView {
        ip_address: validator.ip,
        pubkey: Some(validator.pubkey),
        stake: validator.stake,
        total_slots: validator.total_slots,
        ..data
    }
}

impl ValidatorIpData {
    /// Sets the address field to `ip` and leaves the rest as it is.
    pub fn stamp(self, ip: &String) -> (record: ValidatorIpData)
        ensures
            record@ == stamped(ip@, self@),
    {
        ValidatorIpData { ip_address: Some(ip.clone()), ..self }
    }

    /// Joins the metadata with `validator`: what the participant says of its
    /// address, identity, stake and slot count replaces what the metadata
    /// held in those fields; every other field stays.
    pub fn merge(self, validator: &ValidatorInfo) -> (record: ValidatorIpData)
        ensures
            record@ == merged(validator@, self@),
            record@.ip_address == validator@.ip,
            record@.pubkey == Some(validator@.pubkey),
            record@.stake == validator@.stake,
            record@.total_slots == validator@.total_slots,
    {
        ValidatorIpData {
            ip_address: clone_text(&validator.ip),
            pubkey: Some(validator.pubkey.clone()),
            stake: validator.stake,
            total_slots: validator.total_slots,
            ..self
        }
    }
}

} // verus!
