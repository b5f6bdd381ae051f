use vstd::prelude::*;

use crate::error::Error;
use crate::ids::{uuid_parse, Uuid};
use crate::text::{cstr_text, cstr_to_owned, i64_decimal, signed_decimal};

verus! {

/// Flag of a module record: the module has failed.
pub const FMD_ADM_MOD_FAILED: u32 = 0x1;

/// Flag of a resource record: the resource is faulty.
pub const FMD_ADM_RSRC_FAULTY: u32 = 0x1;

/// Flag of a resource record: the resource is unusable.
pub const FMD_ADM_RSRC_UNUSABLE: u32 = 0x2;

/// Flag of a resource record: the resource is invisible.
pub const FMD_ADM_RSRC_INVISIBLE: u32 = 0x4;

/// Flag of a SERD engine record: the engine has fired.
pub const FMD_ADM_SERD_FIRED: u32 = 0x1;

/// A C string field given by its bytes, as a slice.
pub fn c_bytes(p: &Option<Vec<u8>>) -> (r: Option<&[u8]>)
    ensures
        r.deep_view() == p.deep_view(),
{
    match p {
        Some(v) => {
            let s = v.as_slice();
            assert(s.deep_view() =~= v.deep_view());
            Some(s)
        },
        None => None,
    }
}

/// The text of a C string field.
pub open spec fn field_text(p: Option<Vec<u8>>) -> Seq<char> {
    cstr_text(p.deep_view())
}

/// Whether resources flagged as invisible are included when listing or counting.
///
/// FMD marks some resources as "invisible": they exist in the daemon's
/// internal model but are not shown by typical administrative tools. Callers
/// usually want only the visible ones; pass `Included` to also see the
/// invisible ones.
#[derive(Debug, Clone, Copy, PartialEq, Eq, Structural)]
pub enum InvisibleResources {
    Included,
    Excluded,
}

impl InvisibleResources {
    /// The C `int` flag that the daemon reads: 1 to include invisible
    /// resources, 0 to leave them out.
    pub fn as_c_int(self) -> (r: i32)
        ensures
            r == (if self is Included { 1i32 } else { 0i32 }),
    {
        match self {
            InvisibleResources::Included => 1,
            InvisibleResources::Excluded => 0,
        }
    }
}

/// A module record as `libfmd_adm` hands it to the module iterator.
pub struct RawModuleInfo {
    pub name: Option<Vec<u8>>,
    pub description: Option<Vec<u8>>,
    pub version: Option<Vec<u8>>,
    pub flags: u32,
}

/// A loaded FMD module.
#[derive(Debug, Clone)]
pub struct ModuleInfo {
    pub name: String,
    pub description: String,
    pub version: String,
    pub failed: bool,
}

impl ModuleInfo {
    /// `self` is what the record `raw` describes.
    pub open spec fn is_from_raw(self, raw: RawModuleInfo) -> bool {
        &&& self.name@ == field_text(raw.name)
        &&& self.description@ == field_text(raw.description)
        &&& self.version@ == field_text(raw.version)
        &&& self.failed == (raw.flags & FMD_ADM_MOD_FAILED != 0)
    }

    /// Converts a module record.
    pub fn from_raw(raw: &RawModuleInfo) -> (r: ModuleInfo)
        ensures
            r.is_from_raw(*raw),
    {
        ModuleInfo {
            name: cstr_to_owned(c_bytes(&raw.name)),
            description: cstr_to_owned(c_bytes(&raw.description)),
            version: cstr_to_owned(c_bytes(&raw.version)),
            failed: (raw.flags & FMD_ADM_MOD_FAILED) != 0,
        }
    }
}

/// A resource record as `libfmd_adm` hands it to the resource iterator.
pub struct RawResourceInfo {
    pub fmri: Option<Vec<u8>>,
    pub uuid: Option<Vec<u8>>,
    pub case: Option<Vec<u8>>,
    pub flags: u32,
}

impl RawResourceInfo {
    /// Both UUIDs of the record parse.
    pub open spec fn parses(self) -> bool {
        uuid_parse(field_text(self.uuid)) is Some && uuid_parse(field_text(self.case)) is Some
    }
}

/// A faulty resource.
#[derive(Debug, Clone)]
pub struct ResourceInfo {
    pub fmri: String,
    pub uuid: Uuid,
    pub case: Uuid,
    pub faulty: bool,
    pub unusable: bool,
    pub invisible: bool,
}

impl ResourceInfo {
    /// `self` is what the record `raw` describes.
    pub open spec fn is_from_raw(self, raw: RawResourceInfo) -> bool {
        &&& self.fmri@ == field_text(raw.fmri)
        &&& uuid_parse(field_text(raw.uuid)) == Some(self.uuid.value)
        &&& uuid_parse(field_text(raw.case)) == Some(self.case.value)
        &&& self.faulty == (raw.flags & FMD_ADM_RSRC_FAULTY != 0)
        &&& self.unusable == (raw.flags & FMD_ADM_RSRC_UNUSABLE != 0)
        &&& self.invisible == (raw.flags & FMD_ADM_RSRC_INVISIBLE != 0)
    }

    /// Converts a resource record; it fails with `Error::Uuid` when either
    /// of its UUIDs does not parse.
    pub fn from_raw(raw: &RawResourceInfo) -> (r: Result<ResourceInfo, Error>)
        ensures
            match r {
                Ok(info) => info.is_from_raw(*raw),
                Err(e) => !raw.parses() && e is Uuid,
            },
    {
        let fmri = cstr_to_owned(c_bytes(&raw.fmri));
        let uuid_text = cstr_to_owned(c_bytes(&raw.uuid));
        let case_text = cstr_to_owned(c_bytes(&raw.case));
        let uuid = Uuid::parse(uuid_text.as_str())?;
        let case = Uuid::parse(case_text.as_str())?;
        Ok(ResourceInfo {
            fmri,
            uuid,
            case,
            faulty: (raw.flags & FMD_ADM_RSRC_FAULTY) != 0,
            unusable: (raw.flags & FMD_ADM_RSRC_UNUSABLE) != 0,
            invisible: (raw.flags & FMD_ADM_RSRC_INVISIBLE) != 0,
        })
    }
}

/// A case record as `libfmd_adm` hands it to the case iterator; `event` is
/// the case's fault event payload, already copied out by the caller.
pub struct RawCaseInfo<E> {
    pub uuid: Option<Vec<u8>>,
    pub code: Option<Vec<u8>>,
    pub url: Option<Vec<u8>>,
    pub event: Option<E>,
}

impl<E> RawCaseInfo<E> {
    /// The UUID of the record parses.
    pub open spec fn parses(self) -> bool {
        uuid_parse(field_text(self.uuid)) is Some
    }
}

/// A diagnosed case.
#[derive(Debug, Clone)]
pub struct CaseInfo<E> {
    pub uuid: Uuid,
    pub code: String,
    pub url: String,
    /// The full fault event payload, if present.
    pub event: Option<E>,
}

impl<E> CaseInfo<E> {
    /// `self` is what the record `raw` describes.
    pub open spec fn is_from_raw(self, raw: RawCaseInfo<E>) -> bool {
        &&& uuid_parse(field_text(raw.uuid)) == Some(self.uuid.value)
        &&& self.code@ == field_text(raw.code)
        &&& self.url@ == field_text(raw.url)
        &&& self.event == raw.event
    }

    /// Converts a case record; it fails with `Error::Uuid` when its UUID
    /// does not parse.
    pub fn from_raw(raw: RawCaseInfo<E>) -> (r: Result<CaseInfo<E>, Error>)
        ensures
            match r {
                Ok(info) => info.is_from_raw(raw),
                Err(e) => !raw.parses() && e is Uuid,
            },
    {
        let uuid_text = cstr_to_owned(c_bytes(&raw.uuid));
        let code = cstr_to_owned(c_bytes(&raw.code));
        let url = cstr_to_owned(c_bytes(&raw.url));
        let uuid = Uuid::parse(uuid_text.as_str())?;
        Ok(CaseInfo { uuid, code, url, event: raw.event })
    }
}

/// A SERD engine record as `libfmd_adm` hands it to the engine iterator.
pub struct RawSerdInfo {
    pub name: Option<Vec<u8>>,
    pub delta: u64,
    pub n: u64,
    pub t: u64,
    pub count: u32,
    pub flags: u32,
}

/// A SERD (soft error rate discrimination) engine of a module.
#[derive(Debug, Clone)]
pub struct SerdInfo {
    pub name: String,
    /// Nanoseconds from oldest event to now.
    pub delta_ns: u64,
    /// N parameter (event count threshold).
    pub n: u64,
    /// T parameter (nanoseconds window).
    pub t_ns: u64,
    /// Number of events currently in engine.
    pub count: u32,
    /// Whether the SERD engine has fired.
    pub fired: bool,
}

impl SerdInfo {
    /// `self` is what the record `raw` describes.
    pub open spec fn is_from_raw(self, raw: RawSerdInfo) -> bool {
        &&& self.name@ == field_text(raw.name)
        &&& self.delta_ns == raw.delta
        &&& self.n == raw.n
        &&& self.t_ns == raw.t
        &&& self.count == raw.count
        &&& self.fired == (raw.flags & FMD_ADM_SERD_FIRED != 0)
    }

    /// Converts a SERD engine record.
    pub fn from_raw(raw: &RawSerdInfo) -> (r: SerdInfo)
        ensures
            r.is_from_raw(*raw),
    {
        SerdInfo {
            name: cstr_to_owned(c_bytes(&raw.name)),
            delta_ns: raw.delta,
            n: raw.n,
            t_ns: raw.t,
            count: raw.count,
            fired: (raw.flags & FMD_ADM_SERD_FIRED) != 0,
        }
    }
}

/// An opaque identifier for an FMD transport.
#[derive(Debug, Clone, Copy, PartialEq, Eq, Hash, Structural)]
pub struct TransportId(pub i32);

impl TransportId {
    /// The daemon's identifier of the transport.
    pub fn as_raw(&self) -> (r: i32)
        ensures
            r == self.0,
    {
        self.0
    }

    /// The identifier in decimal, as `Display` writes it.
    pub fn to_string(&self) -> (r: String)
        ensures
            r@ == signed_decimal(self.0 as int),
    {
        i64_decimal(self.0 as i64)
    }
}

} // verus!
