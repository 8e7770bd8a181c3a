//! The speedtest command: argument construction and the measurement tree.
//!
//! A speedtest run yields a nested record. Each node exposes itself as a
//! flat mapping of leaf names to typed values, and as a mapping of leaf
//! names to strings for tag use; the whole tree flattens under
//! `<section>_<leaf>` names, e.g. `download_bandwidth`.

use vstd::prelude::*;

use crate::num::bool_str;
use crate::num::bool_to_string;
use crate::num::dec_str;
use crate::num::decimal_to_string;
use crate::num::u64_dec_str;
use crate::num::u64_to_string;
use crate::num::Decimal;

verus! {

/// One typed measured value.
#[derive(Debug, PartialEq)]
pub enum FieldValue {
    Float(Decimal),
    Int(i64),
    Str(String),
    Bool(bool),
}

/// A measured value as the specifications see it: string content as a
/// character sequence.
#[verifier::ext_equal]
pub enum FieldData {
    Float(Decimal),
    Int(i64),
    Str(Seq<char>),
    Bool(bool),
}

impl View for FieldValue {
    type V = FieldData;

    open spec fn view(&self) -> FieldData {
        match self {
            FieldValue::Float(d) => FieldData::Float(*d),
            FieldValue::Int(i) => FieldData::Int(*i),
            FieldValue::Str(s) => FieldData::Str(s@),
            FieldValue::Bool(b) => FieldData::Bool(*b),
        }
    }
}

impl DeepView for FieldValue {
    type V = FieldData;

    open spec fn deep_view(&self) -> FieldData {
        self.view()
    }
}

impl Clone for FieldValue {
    fn clone(&self) -> (r: FieldValue)
        ensures
            r@ == self@,
    {
        match self {
            FieldValue::Float(d) => FieldValue::Float(*d),
            FieldValue::Int(i) => FieldValue::Int(*i),
            FieldValue::Str(s) => FieldValue::Str(s.clone()),
            FieldValue::Bool(b) => FieldValue::Bool(*b),
        }
    }
}

/// The latency summary nested under a transfer direction.
#[derive(Clone, Copy, Debug, PartialEq, Eq, Structural)]
pub struct CliOutputUpDownLatency {
    pub iqm: Decimal,
    pub low: Decimal,
    pub high: Decimal,
    pub jitter: Decimal,
}

/// One transfer direction: bandwidth, volume, duration and latency.
#[derive(Clone, Copy, Debug, PartialEq, Eq, Structural)]
pub struct CliOutputUpDown {
    pub bandwidth: Decimal,
    pub bytes: u64,
    pub elapsed: u64,
    pub latency: CliOutputUpDownLatency,
}

/// The idle-ping summary of a run.
#[derive(Clone, Copy, Debug, PartialEq, Eq, Structural)]
pub struct CliOutputPing {
    pub jitter: Decimal,
    pub latency: Decimal,
    pub low: Decimal,
    pub high: Decimal,
}

/// The network interface the run used.
#[derive(Clone, Debug)]
pub struct CliOutputInterface {
    pub internal_ip: String,
    pub name: String,
    pub mac_addr: String,
    pub is_vpn: bool,
    pub external_ip: String,
}

/// The test server the run spoke to.
#[derive(Clone, Debug)]
pub struct CliOutputServer {
    pub id: u64,
    pub host: String,
    pub port: u16,
    pub name: String,
    pub location: String,
    pub country: String,
    pub ip: String,
}

/// The published result record of the run.
#[derive(Clone, Debug)]
pub struct CliOutputResult {
    pub id: String,
    pub url: String,
    pub persisted: bool,
}

/// One whole speedtest run, as its JSON output describes it.
#[derive(Clone, Debug)]
pub struct CliOutput {
    pub output_type: String,
    pub timestamp: String,
    pub ping: CliOutputPing,
    pub download: CliOutputUpDown,
    pub upload: CliOutputUpDown,
    pub packet_loss: Decimal,
    pub isp: String,
    pub interface: CliOutputInterface,
    pub server: CliOutputServer,
    pub result: CliOutputResult,
}

/// The leaf fields of the idle-ping summary.
pub open spec fn ping_section_fields(p: CliOutputPing) -> Seq<(Seq<char>, FieldData)> {
    seq![
        ("jitter"@, FieldData::Float(p.jitter)),
        ("latency"@, FieldData::Float(p.latency)),
        ("low"@, FieldData::Float(p.low)),
        ("high"@, FieldData::Float(p.high)),
    ]
}

/// The leaf tags of the idle-ping summary.
pub open spec fn ping_section_tags(p: CliOutputPing) -> Seq<(Seq<char>, Seq<char>)> {
    seq![
        ("jitter"@, dec_str(p.jitter)),
        ("latency"@, dec_str(p.latency)),
        ("low"@, dec_str(p.low)),
        ("high"@, dec_str(p.high)),
    ]
}

/// The leaf fields of a latency summary.
pub open spec fn latency_section_fields(l: CliOutputUpDownLatency) -> Seq<(Seq<char>, FieldData)> {
    seq![
        ("iqm"@, FieldData::Float(l.iqm)),
        ("low"@, FieldData::Float(l.low)),
        ("high"@, FieldData::Float(l.high)),
        ("jitter"@, FieldData::Float(l.jitter)),
    ]
}

/// The leaf tags of a latency summary.
pub open spec fn latency_section_tags(l: CliOutputUpDownLatency) -> Seq<(Seq<char>, Seq<char>)> {
    seq![
        ("iqm"@, dec_str(l.iqm)),
        ("low"@, dec_str(l.low)),
        ("high"@, dec_str(l.high)),
        ("jitter"@, dec_str(l.jitter)),
    ]
}

/// The leaf fields of a transfer direction, latency leaves under a
/// `latency_` prefix.
pub open spec fn updown_section_fields(u: CliOutputUpDown) -> Seq<(Seq<char>, FieldData)> {
    seq![
        ("bandwidth"@, FieldData::Float(u.bandwidth)),
        ("bytes"@, FieldData::Int(u.bytes as i64)),
        ("elapsed"@, FieldData::Int(u.elapsed as i64)),
        ("latency_iqm"@, FieldData::Float(u.latency.iqm)),
        ("latency_low"@, FieldData::Float(u.latency.low)),
        ("latency_high"@, FieldData::Float(u.latency.high)),
        ("latency_jitter"@, FieldData::Float(u.latency.jitter)),
    ]
}

/// The leaf tags of a transfer direction.
pub open spec fn updown_section_tags(u: CliOutputUpDown) -> Seq<(Seq<char>, Seq<char>)> {
    seq![
        ("bandwidth"@, dec_str(u.bandwidth)),
        ("bytes"@, u64_dec_str(u.bytes as nat)),
        ("elapsed"@, u64_dec_str(u.elapsed as nat)),
        ("latency_iqm"@, dec_str(u.latency.iqm)),
        ("latency_low"@, dec_str(u.latency.low)),
        ("latency_high"@, dec_str(u.latency.high)),
        ("latency_jitter"@, dec_str(u.latency.jitter)),
    ]
}

/// The leaf fields of the interface record.
pub open spec fn interface_section_fields(f: CliOutputInterface) -> Seq<(Seq<char>, FieldData)> {
    seq![
        ("internal_ip"@, FieldData::Str(f.internal_ip@)),
        ("name"@, FieldData::Str(f.name@)),
        ("mac_addr"@, FieldData::Str(f.mac_addr@)),
        ("is_vpn"@, FieldData::Bool(f.is_vpn)),
        ("external_ip"@, FieldData::Str(f.external_ip@)),
    ]
}

/// The leaf tags of the interface record.
pub open spec fn interface_section_tags(f: CliOutputInterface) -> Seq<(Seq<char>, Seq<char>)> {
    seq![
        ("internal_ip"@, f.internal_ip@),
        ("name"@, f.name@),
        ("mac_addr"@, f.mac_addr@),
        ("is_vpn"@, bool_str(f.is_vpn)),
        ("external_ip"@, f.external_ip@),
    ]
}

/// The leaf fields of the server record.
pub open spec fn server_section_fields(s: CliOutputServer) -> Seq<(Seq<char>, FieldData)> {
    seq![
        ("id"@, FieldData::Int(s.id as i64)),
        ("host"@, FieldData::Str(s.host@)),
        ("port"@, FieldData::Int(s.port as i64)),
        ("name"@, FieldData::Str(s.name@)),
        ("location"@, FieldData::Str(s.location@)),
        ("country"@, FieldData::Str(s.country@)),
        ("ip"@, FieldData::Str(s.ip@)),
    ]
}

/// The leaf tags of the server record.
pub open spec fn server_section_tags(s: CliOutputServer) -> Seq<(Seq<char>, Seq<char>)> {
    seq![
        ("id"@, u64_dec_str(s.id as nat)),
        ("host"@, s.host@),
        ("port"@, u64_dec_str(s.port as nat)),
        ("name"@, s.name@),
        ("location"@, s.location@),
        ("country"@, s.country@),
        ("ip"@, s.ip@),
    ]
}

/// The leaf fields of the result record.
pub open spec fn result_section_fields(t: CliOutputResult) -> Seq<(Seq<char>, FieldData)> {
    seq![
        ("id"@, FieldData::Str(t.id@)),
        ("url"@, FieldData::Str(t.url@)),
        ("persisted"@, FieldData::Bool(t.persisted)),
    ]
}

/// The leaf tags of the result record.
pub open spec fn result_section_tags(t: CliOutputResult) -> Seq<(Seq<char>, Seq<char>)> {
    seq![("id"@, t.id@), ("url"@, t.url@), ("persisted"@, bool_str(t.persisted))]
}

/// The whole run flattened to named fields: four top-level leaves, then
/// each section's leaves under its prefix.
pub open spec fn cli_fields(o: CliOutput) -> Seq<(Seq<char>, FieldData)> {
    seq![
        ("output_type"@, FieldData::Str(o.output_type@)),
        ("timestamp"@, FieldData::Str(o.timestamp@)),
        ("packet_loss"@, FieldData::Float(o.packet_loss)),
        ("isp"@, FieldData::Str(o.isp@)),
        ("ping_jitter"@, FieldData::Float(o.ping.jitter)),
        ("ping_latency"@, FieldData::Float(o.ping.latency)),
        ("ping_low"@, FieldData::Float(o.ping.low)),
        ("ping_high"@, FieldData::Float(o.ping.high)),
        ("download_bandwidth"@, FieldData::Float(o.download.bandwidth)),
        ("download_bytes"@, FieldData::Int(o.download.bytes as i64)),
        ("download_elapsed"@, FieldData::Int(o.download.elapsed as i64)),
        ("download_latency_iqm"@, FieldData::Float(o.download.latency.iqm)),
        ("download_latency_low"@, FieldData::Float(o.download.latency.low)),
        ("download_latency_high"@, FieldData::Float(o.download.latency.high)),
        ("download_latency_jitter"@, FieldData::Float(o.download.latency.jitter)),
        ("upload_bandwidth"@, FieldData::Float(o.upload.bandwidth)),
        ("upload_bytes"@, FieldData::Int(o.upload.bytes as i64)),
        ("upload_elapsed"@, FieldData::Int(o.upload.elapsed as i64)),
        ("upload_latency_iqm"@, FieldData::Float(o.upload.latency.iqm)),
        ("upload_latency_low"@, FieldData::Float(o.upload.latency.low)),
        ("upload_latency_high"@, FieldData::Float(o.upload.latency.high)),
        ("upload_latency_jitter"@, FieldData::Float(o.upload.latency.jitter)),
        ("interface_internal_ip"@, FieldData::Str(o.interface.internal_ip@)),
        ("interface_name"@, FieldData::Str(o.interface.name@)),
        ("interface_mac_addr"@, FieldData::Str(o.interface.mac_addr@)),
        ("interface_is_vpn"@, FieldData::Bool(o.interface.is_vpn)),
        ("interface_external_ip"@, FieldData::Str(o.interface.external_ip@)),
        ("server_id"@, FieldData::Int(o.server.id as i64)),
        ("server_host"@, FieldData::Str(o.server.host@)),
        ("server_port"@, FieldData::Int(o.server.port as i64)),
        ("server_name"@, FieldData::Str(o.server.name@)),
        ("server_location"@, FieldData::Str(o.server.location@)),
        ("server_country"@, FieldData::Str(o.server.country@)),
        ("server_ip"@, FieldData::Str(o.server.ip@)),
        ("result_id"@, FieldData::Str(o.result.id@)),
        ("result_url"@, FieldData::Str(o.result.url@)),
        ("result_persisted"@, FieldData::Bool(o.result.persisted)),
    ]
}

/// The whole run flattened to named tag strings. The type and timestamp
/// leaves stay out, as only measured values serve as tags.
pub open spec fn cli_tags(o: CliOutput) -> Seq<(Seq<char>, Seq<char>)> {
    seq![
        ("packet_loss"@, dec_str(o.packet_loss)),
        ("isp"@, o.isp@),
        ("ping_jitter"@, dec_str(o.ping.jitter)),
        ("ping_latency"@, dec_str(o.ping.latency)),
        ("ping_low"@, dec_str(o.ping.low)),
        ("ping_high"@, dec_str(o.ping.high)),
        ("download_bandwidth"@, dec_str(o.download.bandwidth)),
        ("download_bytes"@, u64_dec_str(o.download.bytes as nat)),
        ("download_elapsed"@, u64_dec_str(o.download.elapsed as nat)),
        ("download_latency_iqm"@, dec_str(o.download.latency.iqm)),
        ("download_latency_low"@, dec_str(o.download.latency.low)),
        ("download_latency_high"@, dec_str(o.download.latency.high)),
        ("download_latency_jitter"@, dec_str(o.download.latency.jitter)),
        ("upload_bandwidth"@, dec_str(o.upload.bandwidth)),
        ("upload_bytes"@, u64_dec_str(o.upload.bytes as nat)),
        ("upload_elapsed"@, u64_dec_str(o.upload.elapsed as nat)),
        ("upload_latency_iqm"@, dec_str(o.upload.latency.iqm)),
        ("upload_latency_low"@, dec_str(o.upload.latency.low)),
        ("upload_latency_high"@, dec_str(o.upload.latency.high)),
        ("upload_latency_jitter"@, dec_str(o.upload.latency.jitter)),
        ("interface_internal_ip"@, o.interface.internal_ip@),
        ("interface_name"@, o.interface.name@),
        ("interface_mac_addr"@, o.interface.mac_addr@),
        ("interface_is_vpn"@, bool_str(o.interface.is_vpn)),
        ("interface_external_ip"@, o.interface.external_ip@),
        ("server_id"@, u64_dec_str(o.server.id as nat)),
        ("server_host"@, o.server.host@),
        ("server_port"@, u64_dec_str(o.server.port as nat)),
        ("server_name"@, o.server.name@),
        ("server_location"@, o.server.location@),
        ("server_country"@, o.server.country@),
        ("server_ip"@, o.server.ip@),
        ("result_id"@, o.result.id@),
        ("result_url"@, o.result.url@),
        ("result_persisted"@, bool_str(o.result.persisted)),
    ]
}

impl CliOutputPing {
    /// This record's leaves as named fields.
    pub fn as_fields(&self) -> (r: Vec<(String, FieldValue)>)
        ensures
            r.deep_view() == ping_section_fields(*self),
    {
        let mut r: Vec<(String, FieldValue)> = Vec::new();
        r.push(("jitter".to_owned(), FieldValue::Float(self.jitter)));
        r.push(("latency".to_owned(), FieldValue::Float(self.latency)));
        r.push(("low".to_owned(), FieldValue::Float(self.low)));
        r.push(("high".to_owned(), FieldValue::Float(self.high)));
        proof {
            assert(r.deep_view() =~~= ping_section_fields(*self));
        }
        r
    }

    /// This record's leaves as named tag strings.
    pub fn as_tags(&self) -> (r: Vec<(String, String)>)
        ensures
            r.deep_view() == ping_section_tags(*self),
    {
        let mut r: Vec<(String, String)> = Vec::new();
        r.push(("jitter".to_owned(), decimal_to_string(&self.jitter)));
        r.push(("latency".to_owned(), decimal_to_string(&self.latency)));
        r.push(("low".to_owned(), decimal_to_string(&self.low)));
        r.push(("high".to_owned(), decimal_to_string(&self.high)));
        proof {
            assert(r.deep_view() =~~= ping_section_tags(*self));
        }
        r
    }
}

impl CliOutputUpDownLatency {
    /// This record's leaves as named fields.
    pub fn as_fields(&self) -> (r: Vec<(String, FieldValue)>)
        ensures
            r.deep_view() == latency_section_fields(*self),
    {
        let mut r: Vec<(String, FieldValue)> = Vec::new();
        r.push(("iqm".to_owned(), FieldValue::Float(self.iqm)));
        r.push(("low".to_owned(), FieldValue::Float(self.low)));
        r.push(("high".to_owned(), FieldValue::Float(self.high)));
        r.push(("jitter".to_owned(), FieldValue::Float(self.jitter)));
        proof {
            assert(r.deep_view() =~~= latency_section_fields(*self));
        }
        r
    }

    /// This record's leaves as named tag strings.
    pub fn as_tags(&self) -> (r: Vec<(String, String)>)
        ensures
            r.deep_view() == latency_section_tags(*self),
    {
        let mut r: Vec<(String, String)> = Vec::new();
        r.push(("iqm".to_owned(), decimal_to_string(&self.iqm)));
        r.push(("low".to_owned(), decimal_to_string(&self.low)));
        r.push(("high".to_owned(), decimal_to_string(&self.high)));
        r.push(("jitter".to_owned(), decimal_to_string(&self.jitter)));
        proof {
            assert(r.deep_view() =~~= latency_section_tags(*self));
        }
        r
    }
}

impl CliOutputUpDown {
    /// This record's leaves as named fields, the latency record under a
    /// `latency_` prefix.
    pub fn as_fields(&self) -> (r: Vec<(String, FieldValue)>)
        ensures
            r.deep_view() == updown_section_fields(*self),
    {
        let mut r: Vec<(String, FieldValue)> = Vec::new();
        r.push(("bandwidth".to_owned(), FieldValue::Float(self.bandwidth)));
        r.push(("bytes".to_owned(), FieldValue::Int(#[verifier::truncate] (self.bytes as i64))));
        r.push(("elapsed".to_owned(), FieldValue::Int(#[verifier::truncate] (self.elapsed as i64))));
        r.push(("latency_iqm".to_owned(), FieldValue::Float(self.latency.iqm)));
        r.push(("latency_low".to_owned(), FieldValue::Float(self.latency.low)));
        r.push(("latency_high".to_owned(), FieldValue::Float(self.latency.high)));
        r.push(("latency_jitter".to_owned(), FieldValue::Float(self.latency.jitter)));
        proof {
            assert(r.deep_view() =~~= updown_section_fields(*self));
        }
        r
    }

    /// This record's leaves as named tag strings.
    pub fn as_tags(&self) -> (r: Vec<(String, String)>)
        ensures
            r.deep_view() == updown_section_tags(*self),
    {
        let mut r: Vec<(String, String)> = Vec::new();
        r.push(("bandwidth".to_owned(), decimal_to_string(&self.bandwidth)));
        r.push(("bytes".to_owned(), u64_to_string(self.bytes)));
        r.push(("elapsed".to_owned(), u64_to_string(self.elapsed)));
        r.push(("latency_iqm".to_owned(), decimal_to_string(&self.latency.iqm)));
        r.push(("latency_low".to_owned(), decimal_to_string(&self.latency.low)));
        r.push(("latency_high".to_owned(), decimal_to_string(&self.latency.high)));
        r.push(("latency_jitter".to_owned(), decimal_to_string(&self.latency.jitter)));
        proof {
            assert(r.deep_view() =~~= updown_section_tags(*self));
        }
        r
    }
}

impl CliOutputInterface {
    /// This record's leaves as named fields.
    pub fn as_fields(&self) -> (r: Vec<(String, FieldValue)>)
        ensures
            r.deep_view() == interface_section_fields(*self),
    {
        let mut r: Vec<(String, FieldValue)> = Vec::new();
        r.push(("internal_ip".to_owned(), FieldValue::Str(self.internal_ip.clone())));
        r.push(("name".to_owned(), FieldValue::Str(self.name.clone())));
        r.push(("mac_addr".to_owned(), FieldValue::Str(self.mac_addr.clone())));
        r.push(("is_vpn".to_owned(), FieldValue::Bool(self.is_vpn)));
        r.push(("external_ip".to_owned(), FieldValue::Str(self.external_ip.clone())));
        proof {
            assert(r.deep_view() =~~= interface_section_fields(*self));
        }
        r
    }

    /// This record's leaves as named tag strings.
    pub fn as_tags(&self) -> (r: Vec<(String, String)>)
        ensures
            r.deep_view() == interface_section_tags(*self),
    {
        let mut r: Vec<(String, String)> = Vec::new();
        r.push(("internal_ip".to_owned(), self.internal_ip.clone()));
        r.push(("name".to_owned(), self.name.clone()));
        r.push(("mac_addr".to_owned(), self.mac_addr.clone()));
        r.push(("is_vpn".to_owned(), bool_to_string(self.is_vpn)));
        r.push(("external_ip".to_owned(), self.external_ip.clone()));
        proof {
            assert(r.deep_view() =~~= interface_section_tags(*self));
        }
        r
    }
}

impl CliOutputServer {
    /// This record's leaves as named fields.
    pub fn as_fields(&self) -> (r: Vec<(String, FieldValue)>)
        ensures
            r.deep_view() == server_section_fields(*self),
    {
        let mut r: Vec<(String, FieldValue)> = Vec::new();
        r.push(("id".to_owned(), FieldValue::Int(#[verifier::truncate] (self.id as i64))));
        r.push(("host".to_owned(), FieldValue::Str(self.host.clone())));
        r.push(("port".to_owned(), FieldValue::Int(self.port as i64)));
        r.push(("name".to_owned(), FieldValue::Str(self.name.clone())));
        r.push(("location".to_owned(), FieldValue::Str(self.location.clone())));
        r.push(("country".to_owned(), FieldValue::Str(self.country.clone())));
        r.push(("ip".to_owned(), FieldValue::Str(self.ip.clone())));
        proof {
            assert(r.deep_view() =~~= server_section_fields(*self));
        }
        r
    }

    /// This record's leaves as named tag strings.
    pub fn as_tags(&self) -> (r: Vec<(String, String)>)
        ensures
            r.deep_view() == server_section_tags(*self),
    {
        let mut r: Vec<(String, String)> = Vec::new();
        r.push(("id".to_owned(), u64_to_string(self.id)));
        r.push(("host".to_owned(), self.host.clone()));
        r.push(("port".to_owned(), u64_to_string(self.port as u64)));
        r.push(("name".to_owned(), self.name.clone()));
        r.push(("location".to_owned(), self.location.clone()));
        r.push(("country".to_owned(), self.country.clone()));
        r.push(("ip".to_owned(), self.ip.clone()));
        proof {
            assert(r.deep_view() =~~= server_section_tags(*self));
        }
        r
    }
}

impl CliOutputResult {
    /// This record's leaves as named fields.
    pub fn as_fields(&self) -> (r: Vec<(String, FieldValue)>)
        ensures
            r.deep_view() == result_section_fields(*self),
    {
        let mut r: Vec<(String, FieldValue)> = Vec::new();
        r.push(("id".to_owned(), FieldValue::Str(self.id.clone())));
        r.push(("url".to_owned(), FieldValue::Str(self.url.clone())));
        r.push(("persisted".to_owned(), FieldValue::Bool(self.persisted)));
        proof {
            assert(r.deep_view() =~~= result_section_fields(*self));
        }
        r
    }

    /// This record's leaves as named tag strings.
    pub fn as_tags(&self) -> (r: Vec<(String, String)>)
        ensures
            r.deep_view() == result_section_tags(*self),
    {
        let mut r: Vec<(String, String)> = Vec::new();
        r.push(("id".to_owned(), self.id.clone()));
        r.push(("url".to_owned(), self.url.clone()));
        r.push(("persisted".to_owned(), bool_to_string(self.persisted)));
        proof {
            assert(r.deep_view() =~~= result_section_tags(*self));
        }
        r
    }
}

impl CliOutput {
    /// The whole run flattened to named fields under the
    /// `<section>_<leaf>` convention.
    pub fn as_fields(&self) -> (r: Vec<(String, FieldValue)>)
        ensures
            r.deep_view() == cli_fields(*self),
    {
        let mut r: Vec<(String, FieldValue)> = Vec::new();
        r.push(("output_type".to_owned(), FieldValue::Str(self.output_type.clone())));
        r.push(("timestamp".to_owned(), FieldValue::Str(self.timestamp.clone())));
        r.push(("packet_loss".to_owned(), FieldValue::Float(self.packet_loss)));
        r.push(("isp".to_owned(), FieldValue::Str(self.isp.clone())));
        r.push(("ping_jitter".to_owned(), FieldValue::Float(self.ping.jitter)));
        r.push(("ping_latency".to_owned(), FieldValue::Float(self.ping.latency)));
        r.push(("ping_low".to_owned(), FieldValue::Float(self.ping.low)));
        r.push(("ping_high".to_owned(), FieldValue::Float(self.ping.high)));
        r.push(("download_bandwidth".to_owned(), FieldValue::Float(self.download.bandwidth)));
        r.push(
            (
                "download_bytes".to_owned(),
                FieldValue::Int(#[verifier::truncate] (self.download.bytes as i64)),
            ),
        );
        r.push(
            (
                "download_elapsed".to_owned(),
                FieldValue::Int(#[verifier::truncate] (self.download.elapsed as i64)),
            ),
        );
        r.push(("download_latency_iqm".to_owned(), FieldValue::Float(self.download.latency.iqm)));
        r.push(("download_latency_low".to_owned(), FieldValue::Float(self.download.latency.low)));
        r.push(("download_latency_high".to_owned(), FieldValue::Float(self.download.latency.high)));
        r.push(
            ("download_latency_jitter".to_owned(), FieldValue::Float(self.download.latency.jitter)),
        );
        r.push(("upload_bandwidth".to_owned(), FieldValue::Float(self.upload.bandwidth)));
        r.push(
            (
                "upload_bytes".to_owned(),
                FieldValue::Int(#[verifier::truncate] (self.upload.bytes as i64)),
            ),
        );
        r.push(
            (
                "upload_elapsed".to_owned(),
                FieldValue::Int(#[verifier::truncate] (self.upload.elapsed as i64)),
            ),
        );
        r.push(("upload_latency_iqm".to_owned(), FieldValue::Float(self.upload.latency.iqm)));
        r.push(("upload_latency_low".to_owned(), FieldValue::Float(self.upload.latency.low)));
        r.push(("upload_latency_high".to_owned(), FieldValue::Float(self.upload.latency.high)));
        r.push(("upload_latency_jitter".to_owned(), FieldValue::Float(self.upload.latency.jitter)));
        r.push(("interface_internal_ip".to_owned(), FieldValue::Str(self.interface.internal_ip.clone())));
        r.push(("interface_name".to_owned(), FieldValue::Str(self.interface.name.clone())));
        r.push(("interface_mac_addr".to_owned(), FieldValue::Str(self.interface.mac_addr.clone())));
        r.push(("interface_is_vpn".to_owned(), FieldValue::Bool(self.interface.is_vpn)));
        r.push(("interface_external_ip".to_owned(), FieldValue::Str(self.interface.external_ip.clone())));
        r.push(("server_id".to_owned(), FieldValue::Int(#[verifier::truncate] (self.server.id as i64))));
        r.push(("server_host".to_owned(), FieldValue::Str(self.server.host.clone())));
        r.push(("server_port".to_owned(), FieldValue::Int(self.server.port as i64)));
        r.push(("server_name".to_owned(), FieldValue::Str(self.server.name.clone())));
        r.push(("server_location".to_owned(), FieldValue::Str(self.server.location.clone())));
        r.push(("server_country".to_owned(), FieldValue::Str(self.server.country.clone())));
        r.push(("server_ip".to_owned(), FieldValue::Str(self.server.ip.clone())));
        r.push(("result_id".to_owned(), FieldValue::Str(self.result.id.clone())));
        r.push(("result_url".to_owned(), FieldValue::Str(self.result.url.clone())));
        r.push(("result_persisted".to_owned(), FieldValue::Bool(self.result.persisted)));
        proof {
            assert(r.deep_view() =~~= cli_fields(*self));
        }
        r
    }

    /// The whole run flattened to named tag strings under the
    /// `<section>_<leaf>` convention.
    pub fn as_tags(&self) -> (r: Vec<(String, String)>)
        ensures
            r.deep_view() == cli_tags(*self),
    {
        let mut r: Vec<(String, String)> = Vec::new();
        r.push(("packet_loss".to_owned(), decimal_to_string(&self.packet_loss)));
        r.push(("isp".to_owned(), self.isp.clone()));
        r.push(("ping_jitter".to_owned(), decimal_to_string(&self.ping.jitter)));
        r.push(("ping_latency".to_owned(), decimal_to_string(&self.ping.latency)));
        r.push(("ping_low".to_owned(), decimal_to_string(&self.ping.low)));
        r.push(("ping_high".to_owned(), decimal_to_string(&self.ping.high)));
        r.push(("download_bandwidth".to_owned(), decimal_to_string(&self.download.bandwidth)));
        r.push(("download_bytes".to_owned(), u64_to_string(self.download.bytes)));
        r.push(("download_elapsed".to_owned(), u64_to_string(self.download.elapsed)));
        r.push(("download_latency_iqm".to_owned(), decimal_to_string(&self.download.latency.iqm)));
        r.push(("download_latency_low".to_owned(), decimal_to_string(&self.download.latency.low)));
        r.push(("download_latency_high".to_owned(), decimal_to_string(&self.download.latency.high)));
        r.push(("download_latency_jitter".to_owned(), decimal_to_string(&self.download.latency.jitter)));
        r.push(("upload_bandwidth".to_owned(), decimal_to_string(&self.upload.bandwidth)));
        r.push(("upload_bytes".to_owned(), u64_to_string(self.upload.bytes)));
        r.push(("upload_elapsed".to_owned(), u64_to_string(self.upload.elapsed)));
        r.push(("upload_latency_iqm".to_owned(), decimal_to_string(&self.upload.latency.iqm)));
        r.push(("upload_latency_low".to_owned(), decimal_to_string(&self.upload.latency.low)));
        r.push(("upload_latency_high".to_owned(), decimal_to_string(&self.upload.latency.high)));
        r.push(("upload_latency_jitter".to_owned(), decimal_to_string(&self.upload.latency.jitter)));
        r.push(("interface_internal_ip".to_owned(), self.interface.internal_ip.clone()));
        r.push(("interface_name".to_owned(), self.interface.name.clone()));
        r.push(("interface_mac_addr".to_owned(), self.interface.mac_addr.clone()));
        r.push(("interface_is_vpn".to_owned(), bool_to_string(self.interface.is_vpn)));
        r.push(("interface_external_ip".to_owned(), self.interface.external_ip.clone()));
        r.push(("server_id".to_owned(), u64_to_string(self.server.id)));
        r.push(("server_host".to_owned(), self.server.host.clone()));
        r.push(("server_port".to_owned(), u64_to_string(self.server.port as u64)));
        r.push(("server_name".to_owned(), self.server.name.clone()));
        r.push(("server_location".to_owned(), self.server.location.clone()));
        r.push(("server_country".to_owned(), self.server.country.clone()));
        r.push(("server_ip".to_owned(), self.server.ip.clone()));
        r.push(("result_id".to_owned(), self.result.id.clone()));
        r.push(("result_url".to_owned(), self.result.url.clone()));
        r.push(("result_persisted".to_owned(), bool_to_string(self.result.persisted)));
        proof {
            assert(r.deep_view() =~~= cli_tags(*self));
        }
        r
    }
}

/// The speedtest command's argument list: license and format flags, and
/// the server selection when one is configured.
pub open spec fn speedtest_args(server: Option<u64>) -> Seq<Seq<char>> {
    let base = seq!["--accept-license"@, "--accept-gdpr"@, "--format=json"@];
    match server {
        None => base,
        Some(id) => base + seq!["--server"@, u64_dec_str(id as nat)],
    }
}

/// Builds the speedtest argument list.
pub fn build_speedtest_command(server: Option<u64>) -> (r: Vec<String>)
    ensures
        r.deep_view() == speedtest_args(server),
{
    let mut r: Vec<String> = Vec::new();
    r.push("--accept-license".to_owned());
    r.push("--accept-gdpr".to_owned());
    r.push("--format=json".to_owned());
    match server {
        Some(id) => {
            r.push("--server".to_owned());
            r.push(u64_to_string(id));
        },
        None => {
        },
    }
    proof {
        assert(r.deep_view() =~~= speedtest_args(server));
    }
    r
}

} // verus!
