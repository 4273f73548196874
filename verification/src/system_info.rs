use vstd::prelude::*;

verus! {

/// Processor description.
pub struct CpuInfoObject {
    pub arch: String,
    pub num: usize,
    pub name: String,
    pub base_freq: String,
}

/// Operating system description.
pub struct OsInfo {
    pub name: String,
    pub kernel_version: String,
    pub os_version: String,
    pub host_name: String,
}

/// What the manager reports about the machine.
pub struct SystemInfoObject {
    pub total_ram: u64,
    pub total_swap: u64,
    pub cpu: CpuInfoObject,
    pub os: OsInfo,
}

/// A text that may be missing, with the empty text in its place.
pub open spec fn or_empty(s: Option<String>) -> Seq<char> {
    match s {
        Some(x) => x@,
        None => Seq::empty(),
    }
}

fn text_or_empty(s: Option<String>) -> (r: String)
    ensures
        r@ == or_empty(s),
{
    match s {
        Some(x) => x,
        None => String::new(),
    }
}

impl OsInfo {
    /// The description from what the system reported; a value it could
    /// not report is empty.
    pub fn new(name: Option<String>, kernel_version: Option<String>, os_version: Option<String>, host_name: Option<String>) -> (r: Self)
        ensures
            r.name@ == or_empty(name),
            r.kernel_version@ == or_empty(kernel_version),
            r.os_version@ == or_empty(os_version),
            r.host_name@ == or_empty(host_name),
    {
        OsInfo {
            name: text_or_empty(name),
            kernel_version: text_or_empty(kernel_version),
            os_version: text_or_empty(os_version),
            host_name: text_or_empty(host_name),
        }
    }
}

} // verus!
