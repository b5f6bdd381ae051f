use vstd::prelude::*;

use crate::error::Error;
use crate::ids::Uuid;
use crate::records::{
    CaseInfo, ModuleInfo, RawCaseInfo, RawModuleInfo, RawResourceInfo, RawSerdInfo, ResourceInfo,
    SerdInfo, TransportId,
};
use crate::stats::{RawStat, Stat};
use crate::text::{error_message, errmsg_text};

verus! {

/// `e` is the daemon's refusal, carrying the text of its error message.
pub open spec fn is_fmd_error(e: Error, errmsg: Option<Seq<u8>>) -> bool {
    match e {
        Error::Fmd(m) => m@ == errmsg_text(errmsg),
        _ => false,
    }
}

/// The outcome of a command that returns no data: success when the return
/// code is zero, the daemon's error message otherwise.
pub fn finish_command(rc: i32, errmsg: Option<&[u8]>) -> (r: Result<(), Error>)
    ensures
        match r {
            Ok(_) => rc == 0,
            Err(e) => rc != 0 && is_fmd_error(e, errmsg.deep_view()),
        },
{
    if rc != 0 {
        return Err(Error::Fmd(error_message(errmsg)));
    }
    Ok(())
}

/// The outcome of listing the modules.
pub fn finish_modules(rc: i32, errmsg: Option<&[u8]>, raw: &Vec<RawModuleInfo>) -> (r: Result<
    Vec<ModuleInfo>,
    Error,
>)
    ensures
        match r {
            Ok(v) => rc == 0 && v.len() == raw.len() && forall|i: int|
                0 <= i < raw.len() ==> #[trigger] v[i].is_from_raw(raw[i]),
            Err(e) => rc != 0 && is_fmd_error(e, errmsg.deep_view()),
        },
{
    finish_command(rc, errmsg)?;
    let mut out: Vec<ModuleInfo> = Vec::new();
    for i in 0..raw.len()
        invariant
            out.len() == i,
            forall|j: int| 0 <= j < i ==> #[trigger] out[j].is_from_raw(raw[j]),
    {
        out.push(ModuleInfo::from_raw(&raw[i]));
    }
    Ok(out)
}

/// The outcome of listing the faulty resources: every record must carry
/// UUIDs that parse, else the listing fails with `Error::Uuid`.
pub fn finish_resources(rc: i32, errmsg: Option<&[u8]>, raw: &Vec<RawResourceInfo>) -> (r: Result<
    Vec<ResourceInfo>,
    Error,
>)
    ensures
        match r {
            Ok(v) => rc == 0 && v.len() == raw.len() && forall|i: int|
                0 <= i < raw.len() ==> #[trigger] v[i].is_from_raw(raw[i]),
            Err(e) => if rc != 0 {
                is_fmd_error(e, errmsg.deep_view())
            } else {
                e is Uuid && exists|i: int| 0 <= i < raw.len() && !(#[trigger] raw[i]).parses()
            },
        },
{
    finish_command(rc, errmsg)?;
    let mut out: Vec<ResourceInfo> = Vec::new();
    for i in 0..raw.len()
        invariant
            rc == 0,
            out.len() == i,
            forall|j: int| 0 <= j < i ==> #[trigger] out[j].is_from_raw(raw[j]),
    {
        match ResourceInfo::from_raw(&raw[i]) {
            Ok(info) => out.push(info),
            Err(e) => {
                assert(!raw[i as int].parses());
                return Err(e);
            },
        }
    }
    Ok(out)
}

/// The outcome of counting the faulty resources.
pub fn finish_resource_count(rc: i32, errmsg: Option<&[u8]>, count: u32) -> (r: Result<u32, Error>)
    ensures
        match r {
            Ok(n) => rc == 0 && n == count,
            Err(e) => rc != 0 && is_fmd_error(e, errmsg.deep_view()),
        },
{
    finish_command(rc, errmsg)?;
    Ok(count)
}

/// The outcome of listing the cases; the event payloads are carried over
/// unchanged. Every record must carry a UUID that parses, else the listing
/// fails with `Error::Uuid`.
pub fn finish_cases<E>(rc: i32, errmsg: Option<&[u8]>, raw: Vec<RawCaseInfo<E>>) -> (r: Result<
    Vec<CaseInfo<E>>,
    Error,
>)
    ensures
        match r {
            Ok(v) => rc == 0 && v.len() == raw.len() && forall|i: int|
                0 <= i < raw.len() ==> #[trigger] v[i].is_from_raw(raw[i]),
            Err(e) => if rc != 0 {
                is_fmd_error(e, errmsg.deep_view())
            } else {
                e is Uuid && exists|i: int| 0 <= i < raw.len() && !(#[trigger] raw[i]).parses()
            },
        },
{
    finish_command(rc, errmsg)?;
    let ghost records = raw@;
    let mut out: Vec<CaseInfo<E>> = Vec::new();
    for record in it: raw
        invariant
            rc == 0,
            it.seq() == records,
            out.len() == it.index(),
            forall|j: int| 0 <= j < it.index() ==> #[trigger] out[j].is_from_raw(records[j]),
    {
        let ghost i = it.index();
        match CaseInfo::from_raw(record) {
            Ok(info) => out.push(info),
            Err(e) => {
                assert(!records[i].parses());
                return Err(e);
            },
        }
    }
    Ok(out)
}

/// The outcome of listing the SERD engines of a module.
pub fn finish_serd_engines(rc: i32, errmsg: Option<&[u8]>, raw: &Vec<RawSerdInfo>) -> (r: Result<
    Vec<SerdInfo>,
    Error,
>)
    ensures
        match r {
            Ok(v) => rc == 0 && v.len() == raw.len() && forall|i: int|
                0 <= i < raw.len() ==> #[trigger] v[i].is_from_raw(raw[i]),
            Err(e) => rc != 0 && is_fmd_error(e, errmsg.deep_view()),
        },
{
    finish_command(rc, errmsg)?;
    let mut out: Vec<SerdInfo> = Vec::new();
    for i in 0..raw.len()
        invariant
            out.len() == i,
            forall|j: int| 0 <= j < i ==> #[trigger] out[j].is_from_raw(raw[j]),
    {
        out.push(SerdInfo::from_raw(&raw[i]));
    }
    Ok(out)
}

/// The outcome of listing the transports.
pub fn finish_transports(rc: i32, errmsg: Option<&[u8]>, ids: &Vec<i32>) -> (r: Result<
    Vec<TransportId>,
    Error,
>)
    ensures
        match r {
            Ok(v) => rc == 0 && v.len() == ids.len() && forall|i: int|
                0 <= i < ids.len() ==> #[trigger] v[i].0 == ids[i],
            Err(e) => rc != 0 && is_fmd_error(e, errmsg.deep_view()),
        },
{
    finish_command(rc, errmsg)?;
    let mut out: Vec<TransportId> = Vec::new();
    for i in 0..ids.len()
        invariant
            out.len() == i,
            forall|j: int| 0 <= j < i ==> #[trigger] out[j].0 == ids[j],
    {
        out.push(TransportId(ids[i]));
    }
    Ok(out)
}

/// The outcome of reading statistics; `raw` holds the records of the
/// returned buffer (none for an empty or null buffer).
pub fn finish_stats(rc: i32, errmsg: Option<&[u8]>, raw: &Vec<RawStat>) -> (r: Result<
    Vec<Stat>,
    Error,
>)
    ensures
        match r {
            Ok(v) => rc == 0 && v.len() == raw.len() && forall|i: int|
                0 <= i < raw.len() ==> #[trigger] v[i].is_from_raw(raw[i]),
            Err(e) => rc != 0 && is_fmd_error(e, errmsg.deep_view()),
        },
{
    finish_command(rc, errmsg)?;
    let mut out: Vec<Stat> = Vec::new();
    for i in 0..raw.len()
        invariant
            out.len() == i,
            forall|j: int| 0 <= j < i ==> #[trigger] out[j].is_from_raw(raw[j]),
    {
        out.push(Stat::from_raw(&raw[i]));
    }
    Ok(out)
}

} // verus!
