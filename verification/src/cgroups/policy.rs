//! Cgroups policy: the settings of a cgroup and the interface-file writes
//! that establish them.

use crate::spawn::errors::{Controller, Host};
use crate::spawn::fmt::{decimal, format_decimal};
use crate::text::{append_bytes, literal};
use vstd::prelude::*;
use vstd::string::StringSliceAdditionalSpecFns;

verus! {

/// Resource value.
#[derive(PartialEq, Eq, Structural, Copy, Clone, Debug)]
pub enum Resource<T> {
    /// The special token "max" for the given unit.
    Max,
    /// A specific value.
    Value(T),
}

/// The text written for a resource value: `max` or its decimal digits.
pub open spec fn resource_text(r: Resource<u64>) -> Seq<u8> {
    match r {
        Resource::Max => "max".spec_bytes(),
        Resource::Value(v) => decimal(v as int),
    }
}

/// The text written for a boolean interface file: `1` or `0`.
pub open spec fn flag_text(b: bool) -> Seq<u8> {
    if b {
        "1".spec_bytes()
    } else {
        "0".spec_bytes()
    }
}

/// Formats a resource value.
pub fn resource_bytes(r: Resource<u64>) -> (text: Vec<u8>)
    ensures
        text@ == resource_text(r),
{
    match r {
        Resource::Max => literal("max"),
        Resource::Value(v) => format_decimal(v as i128),
    }
}

/// Formats a boolean for an interface file.
pub fn flag_bytes(b: bool) -> (text: Vec<u8>)
    ensures
        text@ == flag_text(b),
{
    if b {
        literal("1")
    } else {
        literal("0")
    }
}

/// Interface files of a cgroup that the policy reads or writes.
#[derive(PartialEq, Eq, Structural, Copy, Clone, Debug)]
pub enum CgroupFile {
    /// `cgroup.controllers`.
    Controllers,
    /// `cgroup.type`.
    Type,
    /// `cgroup.pressure`.
    Pressure,
    /// `cgroup.subtree_control`.
    SubtreeControl,
    /// `cpu.weight`.
    CpuWeight,
    /// `cpu.weight.nice`.
    CpuWeightNice,
    /// `cpu.max`.
    CpuMax,
    /// `cpu.max.burst`.
    CpuMaxBurst,
    /// `cpu.uclamp.min`.
    CpuUclampMin,
    /// `cpu.uclamp.max`.
    CpuUclampMax,
    /// `cpu.idle`.
    CpuIdle,
    /// `memory.min`.
    MemoryMin,
    /// `memory.low`.
    MemoryLow,
    /// `memory.high`.
    MemoryHigh,
    /// `memory.max`.
    MemoryMax,
    /// `memory.oom.group`.
    MemoryOomGroup,
    /// `memory.swap.high`.
    MemorySwapHigh,
    /// `memory.swap.max`.
    MemorySwapMax,
    /// `memory.zswap.max`.
    MemoryZswapMax,
    /// `memory.zswap.writeback`.
    MemoryZswapWriteback,
    /// `pids.max`.
    PidsMax,
}

impl CgroupFile {
    /// The file's name within the cgroup directory.
    pub fn file_name(&self) -> (name: &'static str)
        ensures
            name@ == match *self {
                CgroupFile::Controllers => "cgroup.controllers"@,
                CgroupFile::Type => "cgroup.type"@,
                CgroupFile::Pressure => "cgroup.pressure"@,
                CgroupFile::SubtreeControl => "cgroup.subtree_control"@,
                CgroupFile::CpuWeight => "cpu.weight"@,
                CgroupFile::CpuWeightNice => "cpu.weight.nice"@,
                CgroupFile::CpuMax => "cpu.max"@,
                CgroupFile::CpuMaxBurst => "cpu.max.burst"@,
                CgroupFile::CpuUclampMin => "cpu.uclamp.min"@,
                CgroupFile::CpuUclampMax => "cpu.uclamp.max"@,
                CgroupFile::CpuIdle => "cpu.idle"@,
                CgroupFile::MemoryMin => "memory.min"@,
                CgroupFile::MemoryLow => "memory.low"@,
                CgroupFile::MemoryHigh => "memory.high"@,
                CgroupFile::MemoryMax => "memory.max"@,
                CgroupFile::MemoryOomGroup => "memory.oom.group"@,
                CgroupFile::MemorySwapHigh => "memory.swap.high"@,
                CgroupFile::MemorySwapMax => "memory.swap.max"@,
                CgroupFile::MemoryZswapMax => "memory.zswap.max"@,
                CgroupFile::MemoryZswapWriteback => "memory.zswap.writeback"@,
                CgroupFile::PidsMax => "pids.max"@,
            },
    {
        match *self {
            CgroupFile::Controllers => "cgroup.controllers",
            CgroupFile::Type => "cgroup.type",
            CgroupFile::Pressure => "cgroup.pressure",
            CgroupFile::SubtreeControl => "cgroup.subtree_control",
            CgroupFile::CpuWeight => "cpu.weight",
            CgroupFile::CpuWeightNice => "cpu.weight.nice",
            CgroupFile::CpuMax => "cpu.max",
            CgroupFile::CpuMaxBurst => "cpu.max.burst",
            CgroupFile::CpuUclampMin => "cpu.uclamp.min",
            CgroupFile::CpuUclampMax => "cpu.uclamp.max",
            CgroupFile::CpuIdle => "cpu.idle",
            CgroupFile::MemoryMin => "memory.min",
            CgroupFile::MemoryLow => "memory.low",
            CgroupFile::MemoryHigh => "memory.high",
            CgroupFile::MemoryMax => "memory.max",
            CgroupFile::MemoryOomGroup => "memory.oom.group",
            CgroupFile::MemorySwapHigh => "memory.swap.high",
            CgroupFile::MemorySwapMax => "memory.swap.max",
            CgroupFile::MemoryZswapMax => "memory.zswap.max",
            CgroupFile::MemoryZswapWriteback => "memory.zswap.writeback",
            CgroupFile::PidsMax => "pids.max",
        }
    }
}

/// One write of an interface file: the file and the bytes written to it.
#[derive(Clone, Debug)]
pub struct CgroupWrite {
    /// The interface file written.
    pub file: CgroupFile,
    /// The bytes written, in one `write(2)`.
    pub contents: Vec<u8>,
}

impl View for CgroupWrite {
    type V = (CgroupFile, Seq<u8>);

    open spec fn view(&self) -> (CgroupFile, Seq<u8>) {
        (self.file, self.contents@)
    }
}

/// The writes of a plan, each as its file and its bytes.
pub open spec fn writes_view(writes: Seq<CgroupWrite>) -> Seq<(CgroupFile, Seq<u8>)> {
    writes.map_values(|w: CgroupWrite| w@)
}

/// A single write, as a one-element plan.
pub open spec fn one_write(file: CgroupFile, contents: Seq<u8>) -> Seq<(CgroupFile, Seq<u8>)> {
    seq![(file, contents)]
}

/// The write of an optional setting: nothing when it is unset.
pub open spec fn optional_write<T>(
    setting: Option<T>,
    file: CgroupFile,
    text: spec_fn(T) -> Seq<u8>,
) -> Seq<(CgroupFile, Seq<u8>)> {
    match setting {
        Some(v) => one_write(file, text(v)),
        None => Seq::empty(),
    }
}

/// Appends a write to a plan.
fn push_write(writes: &mut Vec<CgroupWrite>, file: CgroupFile, contents: Vec<u8>)
    ensures
        writes_view(final(writes)@) == writes_view(old(writes)@).push((file, contents@)),
{
    let ghost c = contents@;
    writes.push(CgroupWrite { file, contents });
    assert(writes_view(writes@) =~= writes_view(old(writes)@).push((file, c)));
}

/// Core [configuration options].
///
/// [configuration options]: https://www.kernel.org/doc/html/latest/admin-guide/cgroup-v2.html#core-interface-files
#[derive(PartialEq, Eq, Structural, Copy, Clone, Debug)]
pub struct CgroupProperties {
    /// Whether the cgroup is threaded or not.
    pub is_threaded: bool,
    /// Whether pressure stall information accounting is enabled in the
    /// sandbox's cgroup.
    pub enable_psi_accounting: Option<bool>,
}

impl Default for CgroupProperties {
    fn default() -> (r: Self)
        ensures
            r == (CgroupProperties { is_threaded: false, enable_psi_accounting: None }),
    {
        CgroupProperties { is_threaded: false, enable_psi_accounting: None }
    }
}

impl CgroupProperties {
    /// Whether this cgroup is threaded.
    pub fn threaded(self, is_threaded: bool) -> (r: Self)
        ensures
            r == (CgroupProperties { is_threaded, ..self }),
    {
        CgroupProperties { is_threaded, ..self }
    }

    /// Whether pressure stall information accounting is enabled.
    pub fn psi_accounting(self, enable_psi_accounting: bool) -> (r: Self)
        ensures
            r == (CgroupProperties { enable_psi_accounting: Some(enable_psi_accounting), ..self }),
    {
        CgroupProperties { enable_psi_accounting: Some(enable_psi_accounting), ..self }
    }

    /// Unset the pressure stall information accounting configuration.
    pub fn clear_psi_accounting(self) -> (r: Self)
        ensures
            r == (CgroupProperties { enable_psi_accounting: None, ..self }),
    {
        CgroupProperties { enable_psi_accounting: None, ..self }
    }

    /// The writes that apply these properties, in order.
    #[verifier::opaque]
    pub open spec fn spec_writes(self) -> Seq<(CgroupFile, Seq<u8>)> {
        (if self.is_threaded {
            one_write(CgroupFile::Type, "threaded".spec_bytes())
        } else {
            Seq::empty()
        }) + optional_write(self.enable_psi_accounting, CgroupFile::Pressure, |b: bool| flag_text(b))
    }

    /// The interface-file writes that apply these properties: `cgroup.type`
    /// when threaded, then `cgroup.pressure` when accounting is configured.
    pub fn writes(&self) -> (w: Vec<CgroupWrite>)
        ensures
            writes_view(w@) == self.spec_writes(),
    {
        reveal(CgroupProperties::spec_writes);
        let mut w: Vec<CgroupWrite> = Vec::new();
        if self.is_threaded {
            push_write(&mut w, CgroupFile::Type, literal("threaded"));
        }
        if let Some(enable) = self.enable_psi_accounting {
            push_write(&mut w, CgroupFile::Pressure, flag_bytes(enable));
        }
        assert(writes_view(w@) =~= self.spec_writes());
        w
    }
}

/// Utilization clamp value.
///
/// This value is guaranteed to be within the range `0..=10_000`. Values are
/// stored as an integer representation of decimals with two decimal places,
/// i.e. `23.74%` becomes `2374`.
#[derive(Copy, Clone, Debug)]
pub struct UclampValue(u16);

/// Largest utilization clamp value, `100.00%`.
pub const UCLAMP_MAX: u16 = 10000;

impl UclampValue {
    #[verifier::type_invariant]
    spec fn in_range(self) -> bool {
        self.0 <= UCLAMP_MAX
    }

    /// The contained hundredths of a percent.
    pub closed spec fn spec_u16(self) -> u16 {
        self.0
    }

    /// Construct a valid `cpu.uclamp.*` value.
    ///
    /// This must be in the range `0..=10_000`.
    pub fn new(value: u16) -> (r: Option<Self>)
        ensures
            r is Some <==> value <= UCLAMP_MAX,
            r matches Some(v) ==> v.spec_u16() == value,
    {
        if value <= UCLAMP_MAX {
            Some(UclampValue(value))
        } else {
            None
        }
    }

    /// Construct a new `cpu.uclamp.*` value without performing a bounds check.
    pub fn new_unchecked(value: u16) -> (r: Self)
        requires
            value <= UCLAMP_MAX,
        ensures
            r.spec_u16() == value,
    {
        UclampValue(value)
    }

    /// Get the whole and fractional parts of the value.
    ///
    /// The parts recompose the value: the whole part times a hundred plus the
    /// fractional part is the value, the fractional part is below a hundred
    /// and the whole part is at most a hundred.
    pub fn into_parts(self) -> (parts: (u8, u8))
        ensures
            parts.0 == self.spec_u16() / 100,
            parts.1 == self.spec_u16() % 100,
            parts.0 as int * 100 + parts.1 as int == self.spec_u16(),
            parts.1 < 100,
            parts.0 <= 100,
    {
        proof {
            use_type_invariant(self);
        }
        ((self.0 / 100) as u8, (self.0 % 100) as u8)
    }

    /// Get the contained [`u16`].
    pub fn into_u16(self) -> (v: u16)
        ensures
            v == self.spec_u16(),
            v <= UCLAMP_MAX,
    {
        proof {
            use_type_invariant(self);
        }
        self.0
    }
}

/// The text written for a clamp value: the whole percentage, a dot and the
/// two digits of the fraction.
pub open spec fn uclamp_text(v: UclampValue) -> Seq<u8> {
    decimal((v.spec_u16() / 100) as int) + ".".spec_bytes() + seq![
        ((v.spec_u16() % 100) / 10 + 48) as u8,
        (v.spec_u16() % 10 + 48) as u8,
    ]
}

/// The text written for a clamp setting.
pub open spec fn uclamp_resource_text(r: Resource<UclampValue>) -> Seq<u8> {
    match r {
        Resource::Max => "max".spec_bytes(),
        Resource::Value(v) => uclamp_text(v),
    }
}

/// Formats a clamp setting.
pub fn uclamp_resource_bytes(r: Resource<UclampValue>) -> (text: Vec<u8>)
    ensures
        text@ == uclamp_resource_text(r),
{
    match r {
        Resource::Max => literal("max"),
        Resource::Value(v) => {
            let (whole, fractional) = v.into_parts();
            let mut text = format_decimal(whole as i128);
            let dot = literal(".");
            append_bytes(&mut text, dot.as_slice());
            let tens: u8 = fractional / 10 + 48;
            let ones: u8 = fractional % 10 + 48;
            text.push(tens);
            text.push(ones);
            proof {
                assert(v.spec_u16() % 10 == (v.spec_u16() % 100) % 10) by (nonlinear_arith);
            }
            assert(text@ =~= uclamp_text(v));
            text
        },
    }
}

/// Weight given to a cgroup.
///
/// This value is guaranteed to be in the range `1..=10_000` if it is a hard
/// weight value or in the range `-20..=19` if it is a nice value.
#[derive(Copy, Clone, Debug)]
pub struct CpuWeight {
    /// Contained CPU weight value.
    inner: CpuWeightInner,
}

/// Internal representation of a CPU weight value.
#[derive(Copy, Clone, Debug)]
enum CpuWeightInner {
    /// Hard weight value, in `1..=10_000`.
    Weight(u16),
    /// Nice value, in `-20..=19`.
    Nice(i8),
}

/// Whether a hard weight is accepted.
pub open spec fn valid_weight(value: u16) -> bool {
    1 <= value <= 10000
}

/// Whether a nice value is accepted.
pub open spec fn valid_nice(value: i8) -> bool {
    -20 <= value <= 19
}

impl CpuWeight {
    #[verifier::type_invariant]
    spec fn in_range(self) -> bool {
        match self.inner {
            CpuWeightInner::Weight(v) => valid_weight(v),
            CpuWeightInner::Nice(v) => valid_nice(v),
        }
    }

    /// The hard weight, when this is one.
    pub closed spec fn spec_weight(self) -> Option<u16> {
        match self.inner {
            CpuWeightInner::Weight(v) => Some(v),
            CpuWeightInner::Nice(_) => None,
        }
    }

    /// The nice value, when this is one.
    pub closed spec fn spec_nice(self) -> Option<i8> {
        match self.inner {
            CpuWeightInner::Weight(_) => None,
            CpuWeightInner::Nice(v) => Some(v),
        }
    }

    /// Construct a new CPU weight from a hard weight value.
    ///
    /// This value must be in the range `1..=10_000`.
    pub fn new(value: u16) -> (r: Option<Self>)
        ensures
            r is Some <==> valid_weight(value),
            r matches Some(w) ==> w.spec_weight() == Some(value) && w.spec_nice() is None,
    {
        if 1 <= value && value <= 10000 {
            Some(CpuWeight { inner: CpuWeightInner::Weight(value) })
        } else {
            None
        }
    }

    /// Construct a new CPU weight from a hard weight value without performing a
    /// bounds check.
    pub fn new_unchecked(value: u16) -> (r: Self)
        requires
            valid_weight(value),
        ensures
            r.spec_weight() == Some(value),
            r.spec_nice() is None,
    {
        CpuWeight { inner: CpuWeightInner::Weight(value) }
    }

    /// Construct a new CPU weight from a nice value.
    ///
    /// This value must be in the range `-20..=19`.
    pub fn new_nice(value: i8) -> (r: Option<Self>)
        ensures
            r is Some <==> valid_nice(value),
            r matches Some(w) ==> w.spec_nice() == Some(value) && w.spec_weight() is None,
    {
        if -20 <= value && value <= 19 {
            Some(CpuWeight { inner: CpuWeightInner::Nice(value) })
        } else {
            None
        }
    }

    /// Construct a new CPU weight from a nice value without performing a bounds
    /// check.
    pub fn new_nice_unchecked(value: i8) -> (r: Self)
        requires
            valid_nice(value),
        ensures
            r.spec_nice() == Some(value),
            r.spec_weight() is None,
    {
        CpuWeight { inner: CpuWeightInner::Nice(value) }
    }

    /// Get the contained hard CPU weight, if it contains one.
    pub fn into_weight(self) -> (r: Option<u16>)
        ensures
            r == self.spec_weight(),
            r matches Some(v) ==> valid_weight(v),
            r is None <==> self.spec_nice() is Some,
    {
        proof {
            use_type_invariant(self);
        }
        match self.inner {
            CpuWeightInner::Weight(v) => Some(v),
            CpuWeightInner::Nice(_) => None,
        }
    }

    /// Get the contained nice value, if it contains one.
    pub fn into_nice(self) -> (r: Option<i8>)
        ensures
            r == self.spec_nice(),
            r matches Some(v) ==> valid_nice(v),
            r is None <==> self.spec_weight() is Some,
    {
        proof {
            use_type_invariant(self);
        }
        match self.inner {
            CpuWeightInner::Weight(_) => None,
            CpuWeightInner::Nice(v) => Some(v),
        }
    }
}

/// The write that sets a CPU weight: `cpu.weight` for a hard weight,
/// `cpu.weight.nice` for a nice value.
pub open spec fn weight_write(w: CpuWeight) -> Seq<(CgroupFile, Seq<u8>)> {
    match w.spec_weight() {
        Some(v) => one_write(CgroupFile::CpuWeight, decimal(v as int)),
        None => one_write(CgroupFile::CpuWeightNice, decimal(w.spec_nice().unwrap() as int)),
    }
}

/// The text written to `cpu.max`: the quota, a space and the period.
pub open spec fn cpu_max_text(max: (Resource<u64>, u64)) -> Seq<u8> {
    resource_text(max.0) + " ".spec_bytes() + decimal(max.1 as int)
}

/// Configuration options of the [`cpu` controller].
///
/// [`cpu` controller]: https://www.kernel.org/doc/html/latest/admin-guide/cgroup-v2.html#cpu
#[derive(Copy, Clone, Debug)]
pub struct CpuController {
    /// Whether to give this controller to the subtree.
    pub subtree_control: bool,
    /// Weight given to the cgroup.
    pub weight: Option<CpuWeight>,
    /// CPU time to allow the cgroup within a time interval, in microseconds.
    pub max: Option<(Resource<u64>, u64)>,
    /// Burst CPU time pool bound for the cgroup, in microseconds.
    pub max_burst: Option<u64>,
    /// Requested minimum utilization for the cgroup.
    pub uclamp_min: Option<Resource<UclampValue>>,
    /// Requested maximum utilization for the cgroup.
    pub uclamp_max: Option<Resource<UclampValue>>,
    /// Whether this cgroup should be considered idle.
    pub is_idle: Option<bool>,
}

/// The cpu controller with nothing configured.
pub open spec fn default_cpu() -> CpuController {
    CpuController {
        subtree_control: false,
        weight: None,
        max: None,
        max_burst: None,
        uclamp_min: None,
        uclamp_max: None,
        is_idle: None,
    }
}

impl Default for CpuController {
    fn default() -> (r: Self)
        ensures
            r == default_cpu(),
    {
        CpuController {
            subtree_control: false,
            weight: None,
            max: None,
            max_burst: None,
            uclamp_min: None,
            uclamp_max: None,
            is_idle: None,
        }
    }
}

impl CpuController {
    /// Whether to give the cpu controller to the subtree.
    pub fn subtree_control(self, subtree_control: bool) -> (r: Self)
        ensures
            r == (CpuController { subtree_control, ..self }),
    {
        CpuController { subtree_control, ..self }
    }

    /// Weight given to this cgroup; sets `cpu.weight` or `cpu.weight.nice`.
    pub fn weight(self, weight: CpuWeight) -> (r: Self)
        ensures
            r == (CpuController { weight: Some(weight), ..self }),
    {
        CpuController { weight: Some(weight), ..self }
    }

    /// Unset the cpu weight property for this cgroup.
    pub fn clear_weight(self) -> (r: Self)
        ensures
            r == (CpuController { weight: None, ..self }),
    {
        CpuController { weight: None, ..self }
    }

    /// CPU time permitted for the cgroup within a time interval; sets
    /// `cpu.max`.
    pub fn max(self, cpu_time: Resource<u64>, interval: u64) -> (r: Self)
        ensures
            r == (CpuController { max: Some((cpu_time, interval)), ..self }),
    {
        CpuController { max: Some((cpu_time, interval)), ..self }
    }

    /// Unset the CPU time allocation value for this cgroup.
    pub fn clear_max(self) -> (r: Self)
        ensures
            r == (CpuController { max: None, ..self }),
    {
        CpuController { max: None, ..self }
    }

    /// Burst CPU time pool bound for the cgroup, in microseconds; sets
    /// `cpu.max.burst`.
    pub fn max_burst(self, burst: u64) -> (r: Self)
        ensures
            r == (CpuController { max_burst: Some(burst), ..self }),
    {
        CpuController { max_burst: Some(burst), ..self }
    }

    /// Unset the burst CPU time pool bound for the cgroup.
    pub fn clear_max_burst(self) -> (r: Self)
        ensures
            r == (CpuController { max_burst: None, ..self }),
    {
        CpuController { max_burst: None, ..self }
    }

    /// Requested minimum utilization for the cgroup; sets `cpu.uclamp.min`.
    pub fn uclamp_min(self, uclamp_min: Resource<UclampValue>) -> (r: Self)
        ensures
            r == (CpuController { uclamp_min: Some(uclamp_min), ..self }),
    {
        CpuController { uclamp_min: Some(uclamp_min), ..self }
    }

    /// Clear the requested minimum utilization of the cgroup.
    pub fn clear_uclamp_min(self) -> (r: Self)
        ensures
            r == (CpuController { uclamp_min: None, ..self }),
    {
        CpuController { uclamp_min: None, ..self }
    }

    /// Requested maximum utilization for the cgroup; sets `cpu.uclamp.max`.
    pub fn uclamp_max(self, uclamp_max: Resource<UclampValue>) -> (r: Self)
        ensures
            r == (CpuController { uclamp_max: Some(uclamp_max), ..self }),
    {
        CpuController { uclamp_max: Some(uclamp_max), ..self }
    }

    /// Clear the requested maximum utilization of the cgroup.
    pub fn clear_uclamp_max(self) -> (r: Self)
        ensures
            r == (CpuController { uclamp_max: None, ..self }),
    {
        CpuController { uclamp_max: None, ..self }
    }

    /// Whether the cgroup should be considered idle.
    pub fn idle(self, is_idle: bool) -> (r: Self)
        ensures
            r == (CpuController { is_idle: Some(is_idle), ..self }),
    {
        CpuController { is_idle: Some(is_idle), ..self }
    }

    /// Clear the idle state of the cgroup.
    pub fn clear_idle(self) -> (r: Self)
        ensures
            r == (CpuController { is_idle: None, ..self }),
    {
        CpuController { is_idle: None, ..self }
    }

    /// The writes that apply this configuration, in order.
    #[verifier::opaque]
    pub open spec fn spec_writes(self) -> Seq<(CgroupFile, Seq<u8>)> {
        (if self.subtree_control {
            one_write(CgroupFile::SubtreeControl, "+cpu".spec_bytes())
        } else {
            Seq::empty()
        }) + (match self.weight {
            Some(w) => weight_write(w),
            None => Seq::empty(),
        }) + optional_write(self.max, CgroupFile::CpuMax, |m: (Resource<u64>, u64)| cpu_max_text(m))
            + optional_write(self.max_burst, CgroupFile::CpuMaxBurst, |b: u64| decimal(b as int))
            + optional_write(
            self.uclamp_min,
            CgroupFile::CpuUclampMin,
            |u: Resource<UclampValue>| uclamp_resource_text(u),
        ) + optional_write(
            self.uclamp_max,
            CgroupFile::CpuUclampMax,
            |u: Resource<UclampValue>| uclamp_resource_text(u),
        ) + optional_write(self.is_idle, CgroupFile::CpuIdle, |b: bool| flag_text(b))
    }

    /// The interface-file writes that apply this configuration:
    /// `cgroup.subtree_control`, the weight, `cpu.max`, `cpu.max.burst`,
    /// `cpu.uclamp.min`, `cpu.uclamp.max` and `cpu.idle`, each when set.
    #[verifier::rlimit(80)]
    pub fn writes(&self) -> (w: Vec<CgroupWrite>)
        ensures
            writes_view(w@) == self.spec_writes(),
    {
        reveal(CpuController::spec_writes);
        let mut w: Vec<CgroupWrite> = Vec::new();
        if self.subtree_control {
            push_write(&mut w, CgroupFile::SubtreeControl, literal("+cpu"));
        }
        if let Some(weight) = self.weight {
            proof {
                use_type_invariant(weight);
            }
            match weight.into_weight() {
                Some(v) => push_write(&mut w, CgroupFile::CpuWeight, format_decimal(v as i128)),
                None => {
                    let n = weight.into_nice().unwrap();
                    push_write(&mut w, CgroupFile::CpuWeightNice, format_decimal(n as i128));
                },
            }
        }
        let ghost head = writes_view(w@);
        let mut rest = self.limit_writes();
        let ghost tail = writes_view(rest@);
        w.append(&mut rest);
        proof {
            assert(writes_view(w@) =~= head + tail);
            assert(writes_view(w@) =~= self.spec_writes());
        }
        w
    }

    /// The writes of `cpu.max`, `cpu.max.burst`, the clamps and `cpu.idle`.
    fn limit_writes(&self) -> (w: Vec<CgroupWrite>)
        ensures
            writes_view(w@) == optional_write(
                self.max,
                CgroupFile::CpuMax,
                |m: (Resource<u64>, u64)| cpu_max_text(m),
            ) + optional_write(self.max_burst, CgroupFile::CpuMaxBurst, |b: u64| decimal(b as int))
                + optional_write(
                self.uclamp_min,
                CgroupFile::CpuUclampMin,
                |u: Resource<UclampValue>| uclamp_resource_text(u),
            ) + optional_write(
                self.uclamp_max,
                CgroupFile::CpuUclampMax,
                |u: Resource<UclampValue>| uclamp_resource_text(u),
            ) + optional_write(self.is_idle, CgroupFile::CpuIdle, |b: bool| flag_text(b)),
    {
        let mut w: Vec<CgroupWrite> = Vec::new();
        if let Some((value, interval)) = self.max {
            let mut text = resource_bytes(value);
            let space = literal(" ");
            append_bytes(&mut text, space.as_slice());
            let digits = format_decimal(interval as i128);
            append_bytes(&mut text, digits.as_slice());
            push_write(&mut w, CgroupFile::CpuMax, text);
        }
        if let Some(burst) = self.max_burst {
            push_write(&mut w, CgroupFile::CpuMaxBurst, format_decimal(burst as i128));
        }
        if let Some(u) = self.uclamp_min {
            push_write(&mut w, CgroupFile::CpuUclampMin, uclamp_resource_bytes(u));
        }
        if let Some(u) = self.uclamp_max {
            push_write(&mut w, CgroupFile::CpuUclampMax, uclamp_resource_bytes(u));
        }
        if let Some(idle) = self.is_idle {
            push_write(&mut w, CgroupFile::CpuIdle, flag_bytes(idle));
        }
        w
    }
}

/// Configuration options for the [`memory` controller].
///
/// [`memory` controller]: https://www.kernel.org/doc/html/latest/admin-guide/cgroup-v2.html#memory-interface-files
#[derive(Copy, Clone, Debug)]
pub struct MemoryController {
    /// Whether to give this controller to the subtree.
    pub subtree_control: bool,
    /// Hard memory protection (`memory.min`), in bytes.
    pub min: Option<Resource<u64>>,
    /// Best-effort memory protection (`memory.low`), in bytes.
    pub low: Option<Resource<u64>>,
    /// Memory throttle limit (`memory.high`), in bytes.
    pub high: Option<Resource<u64>>,
    /// Memory hard limit (`memory.max`), in bytes.
    pub max: Option<Resource<u64>>,
    /// Whether the cgroup is an indivisible workload for the OOM killer
    /// (`memory.oom.group`).
    pub is_indivisible: Option<bool>,
    /// Swap throttle limit (`memory.swap.high`), in bytes.
    pub swap_high: Option<Resource<u64>>,
    /// Swap hard limit (`memory.swap.max`), in bytes.
    pub swap_max: Option<Resource<u64>>,
    /// Zswap hard limit (`memory.zswap.max`), in bytes.
    pub zswap_max: Option<Resource<u64>>,
    /// Whether to disable writeback for zswap pages.
    pub disable_zswap_writeback: Option<bool>,
}

/// The memory controller with nothing configured.
pub open spec fn default_memory() -> MemoryController {
    MemoryController {
        subtree_control: false,
        min: None,
        low: None,
        high: None,
        max: None,
        is_indivisible: None,
        swap_high: None,
        swap_max: None,
        zswap_max: None,
        disable_zswap_writeback: None,
    }
}

impl Default for MemoryController {
    fn default() -> (r: Self)
        ensures
            r == default_memory(),
    {
        MemoryController {
            subtree_control: false,
            min: None,
            low: None,
            high: None,
            max: None,
            is_indivisible: None,
            swap_high: None,
            swap_max: None,
            zswap_max: None,
            disable_zswap_writeback: None,
        }
    }
}

/// The write of an optional resource setting.
pub open spec fn resource_write(setting: Option<Resource<u64>>, file: CgroupFile) -> Seq<
    (CgroupFile, Seq<u8>),
> {
    optional_write(setting, file, |r: Resource<u64>| resource_text(r))
}

/// The write of an optional resource setting, as a plan step.
fn push_resource(w: &mut Vec<CgroupWrite>, setting: Option<Resource<u64>>, file: CgroupFile)
    ensures
        writes_view(final(w)@) == writes_view(old(w)@) + resource_write(setting, file),
{
    if let Some(r) = setting {
        push_write(w, file, resource_bytes(r));
    }
    assert(writes_view(w@) =~= writes_view(old(w)@) + resource_write(setting, file));
}

/// The write of an optional flag setting.
pub open spec fn flag_write(setting: Option<bool>, file: CgroupFile) -> Seq<(CgroupFile, Seq<u8>)> {
    optional_write(setting, file, |b: bool| flag_text(b))
}

impl MemoryController {
    /// Whether to give the memory controller to the subtree.
    pub fn subtree_control(self, subtree_control: bool) -> (r: Self)
        ensures
            r == (MemoryController { subtree_control, ..self }),
    {
        MemoryController { subtree_control, ..self }
    }

    /// Set the `memory.min` threshold for the cgroup, in bytes.
    pub fn min(self, min: Resource<u64>) -> (r: Self)
        ensures
            r == (MemoryController { min: Some(min), ..self }),
    {
        MemoryController { min: Some(min), ..self }
    }

    /// Unset the `memory.min` threshold for the cgroup.
    pub fn clear_min(self) -> (r: Self)
        ensures
            r == (MemoryController { min: None, ..self }),
    {
        MemoryController { min: None, ..self }
    }

    /// Set the `memory.low` threshold for the cgroup, in bytes.
    pub fn low(self, low: Resource<u64>) -> (r: Self)
        ensures
            r == (MemoryController { low: Some(low), ..self }),
    {
        MemoryController { low: Some(low), ..self }
    }

    /// Unset the `memory.low` threshold for the cgroup.
    pub fn clear_low(self) -> (r: Self)
        ensures
            r == (MemoryController { low: None, ..self }),
    {
        MemoryController { low: None, ..self }
    }

    /// Set the `memory.high` threshold for the cgroup, in bytes.
    pub fn high(self, high: Resource<u64>) -> (r: Self)
        ensures
            r == (MemoryController { high: Some(high), ..self }),
    {
        MemoryController { high: Some(high), ..self }
    }

    /// Unset the `memory.high` threshold for the cgroup.
    pub fn clear_high(self) -> (r: Self)
        ensures
            r == (MemoryController { high: None, ..self }),
    {
        MemoryController { high: None, ..self }
    }

    /// Set the `memory.max` threshold for the cgroup, in bytes.
    pub fn max(self, max: Resource<u64>) -> (r: Self)
        ensures
            r == (MemoryController { max: Some(max), ..self }),
    {
        MemoryController { max: Some(max), ..self }
    }

    /// Unset the `memory.max` threshold for the cgroup.
    pub fn clear_max(self) -> (r: Self)
        ensures
            r == (MemoryController { max: None, ..self }),
    {
        MemoryController { max: None, ..self }
    }

    /// Whether this cgroup represents an indivisible workload.
    pub fn indivisible(self, is_indivisible: bool) -> (r: Self)
        ensures
            r == (MemoryController { is_indivisible: Some(is_indivisible), ..self }),
    {
        MemoryController { is_indivisible: Some(is_indivisible), ..self }
    }

    /// Unset the `memory.oom.group` setting.
    pub fn clear_indivisible(self) -> (r: Self)
        ensures
            r == (MemoryController { is_indivisible: None, ..self }),
    {
        MemoryController { is_indivisible: None, ..self }
    }

    /// Set the `memory.swap.high` threshold for the cgroup.
    pub fn swap_high(self, swap_high: Resource<u64>) -> (r: Self)
        ensures
            r == (MemoryController { swap_high: Some(swap_high), ..self }),
    {
        MemoryController { swap_high: Some(swap_high), ..self }
    }

    /// Unset the `memory.swap.high` threshold for the cgroup.
    pub fn clear_swap_high(self) -> (r: Self)
        ensures
            r == (MemoryController { swap_high: None, ..self }),
    {
        MemoryController { swap_high: None, ..self }
    }

    /// Set the `memory.swap.max` threshold for the cgroup.
    pub fn swap_max(self, swap_max: Resource<u64>) -> (r: Self)
        ensures
            r == (MemoryController { swap_max: Some(swap_max), ..self }),
    {
        MemoryController { swap_max: Some(swap_max), ..self }
    }

    /// Unset the `memory.swap.max` threshold for the cgroup.
    pub fn unset_swap_max(self) -> (r: Self)
        ensures
            r == (MemoryController { swap_max: None, ..self }),
    {
        MemoryController { swap_max: None, ..self }
    }

    /// Set the `memory.zswap.max` threshold for the cgroup.
    pub fn zswap_max(self, zswap_max: Resource<u64>) -> (r: Self)
        ensures
            r == (MemoryController { zswap_max: Some(zswap_max), ..self }),
    {
        MemoryController { zswap_max: Some(zswap_max), ..self }
    }

    /// Unset the `memory.zswap.max` threshold for the cgroup.
    pub fn unset_zswap_max(self) -> (r: Self)
        ensures
            r == (MemoryController { zswap_max: None, ..self }),
    {
        MemoryController { zswap_max: None, ..self }
    }

    /// Whether to disable writeback for zswap pages.
    pub fn disable_zswap_writeback(self, disable_zswap_writeback: bool) -> (r: Self)
        ensures
            r == (MemoryController {
                disable_zswap_writeback: Some(disable_zswap_writeback),
                ..self
            }),
    {
        MemoryController { disable_zswap_writeback: Some(disable_zswap_writeback), ..self }
    }

    /// Unset the `memory.zswap.writeback` setting.
    pub fn clear_disable_zswap_writeback(self) -> (r: Self)
        ensures
            r == (MemoryController { disable_zswap_writeback: None, ..self }),
    {
        MemoryController { disable_zswap_writeback: None, ..self }
    }

    /// The writes that apply this configuration, in order. Disabling zswap
    /// writeback writes `0` to `memory.zswap.writeback`, enabling it `1`.
    #[verifier::opaque]
    pub open spec fn spec_writes(self) -> Seq<(CgroupFile, Seq<u8>)> {
        (if self.subtree_control {
            one_write(CgroupFile::SubtreeControl, "+memory".spec_bytes())
        } else {
            Seq::empty()
        }) + resource_write(self.min, CgroupFile::MemoryMin) + resource_write(
            self.low,
            CgroupFile::MemoryLow,
        ) + resource_write(self.high, CgroupFile::MemoryHigh) + resource_write(
            self.max,
            CgroupFile::MemoryMax,
        ) + flag_write(self.is_indivisible, CgroupFile::MemoryOomGroup) + resource_write(
            self.swap_high,
            CgroupFile::MemorySwapHigh,
        ) + resource_write(self.swap_max, CgroupFile::MemorySwapMax) + resource_write(
            self.zswap_max,
            CgroupFile::MemoryZswapMax,
        ) + optional_write(
            self.disable_zswap_writeback,
            CgroupFile::MemoryZswapWriteback,
            |b: bool| flag_text(!b),
        )
    }

    /// The interface-file writes that apply this configuration, in the order
    /// of the fields, each when set.
    pub fn writes(&self) -> (w: Vec<CgroupWrite>)
        ensures
            writes_view(w@) == self.spec_writes(),
    {
        reveal(MemoryController::spec_writes);
        let mut w: Vec<CgroupWrite> = Vec::new();
        if self.subtree_control {
            push_write(&mut w, CgroupFile::SubtreeControl, literal("+memory"));
        }
        let ghost s0 = writes_view(w@);
        push_resource(&mut w, self.min, CgroupFile::MemoryMin);
        push_resource(&mut w, self.low, CgroupFile::MemoryLow);
        push_resource(&mut w, self.high, CgroupFile::MemoryHigh);
        push_resource(&mut w, self.max, CgroupFile::MemoryMax);
        let ghost s1 = writes_view(w@);
        if let Some(b) = self.is_indivisible {
            push_write(&mut w, CgroupFile::MemoryOomGroup, flag_bytes(b));
        }
        assert(writes_view(w@) =~= s1 + flag_write(self.is_indivisible, CgroupFile::MemoryOomGroup));
        let ghost s2 = writes_view(w@);
        push_resource(&mut w, self.swap_high, CgroupFile::MemorySwapHigh);
        push_resource(&mut w, self.swap_max, CgroupFile::MemorySwapMax);
        push_resource(&mut w, self.zswap_max, CgroupFile::MemoryZswapMax);
        let ghost s3 = writes_view(w@);
        if let Some(disable) = self.disable_zswap_writeback {
            push_write(&mut w, CgroupFile::MemoryZswapWriteback, flag_bytes(!disable));
        }
        proof {
            let z = optional_write(
                self.disable_zswap_writeback,
                CgroupFile::MemoryZswapWriteback,
                |b: bool| flag_text(!b),
            );
            assert(writes_view(w@) =~= s3 + z);
            assert(writes_view(w@) =~= self.spec_writes());
        }
        w
    }
}

/// Whether a plan writes an optional resource setting to its file: the
/// setting's text when it is set, and nothing at all to that file when it
/// is unset.
pub open spec fn resource_setting_written(
    w: Seq<(CgroupFile, Seq<u8>)>,
    setting: Option<Resource<u64>>,
    file: CgroupFile,
) -> bool {
    match setting {
        Some(r) => w.contains((file, resource_text(r))),
        None => forall|t: Seq<u8>| !w.contains((file, t)),
    }
}

/// A plan that writes nothing to `file`.
pub open spec fn untouched(w: Seq<(CgroupFile, Seq<u8>)>, file: CgroupFile) -> bool {
    forall|t: Seq<u8>| !w.contains((file, t))
}

proof fn lemma_untouched_concat(a: Seq<(CgroupFile, Seq<u8>)>, b: Seq<(CgroupFile, Seq<u8>)>, file: CgroupFile)
    requires
        untouched(a, file),
        untouched(b, file),
    ensures
        untouched(a + b, file),
{
    broadcast use vstd::seq_lib::lemma_seq_concat_contains_all_elements;

}

proof fn lemma_optional_untouched<T>(
    setting: Option<T>,
    other: CgroupFile,
    text: spec_fn(T) -> Seq<u8>,
    file: CgroupFile,
)
    requires
        other != file,
    ensures
        untouched(optional_write(setting, other, text), file),
{
    broadcast use vstd::seq_lib::lemma_seq_contains;
    broadcast use vstd::seq_lib::lemma_seq_empty_contains_nothing;

}

proof fn lemma_subtree_untouched(enabled: bool, line: Seq<u8>, file: CgroupFile)
    requires
        file != CgroupFile::SubtreeControl,
    ensures
        untouched(
            if enabled {
                one_write(CgroupFile::SubtreeControl, line)
            } else {
                Seq::empty()
            },
            file,
        ),
{
    broadcast use vstd::seq_lib::lemma_seq_contains;
    broadcast use vstd::seq_lib::lemma_seq_empty_contains_nothing;

}

proof fn lemma_written_at(a: Seq<(CgroupFile, Seq<u8>)>, setting: Option<Resource<u64>>, file: CgroupFile)
    requires
        untouched(a, file),
    ensures
        resource_setting_written(a + resource_write(setting, file), setting, file),
{
    broadcast use vstd::seq_lib::lemma_seq_concat_contains_all_elements;
    broadcast use vstd::seq_lib::lemma_seq_contains;
    broadcast use vstd::seq_lib::lemma_seq_empty_contains_nothing;

    if let Some(r) = setting {
        assert(resource_write(setting, file)[0] == (file, resource_text(r)));
    }
}

proof fn lemma_written_extend(
    a: Seq<(CgroupFile, Seq<u8>)>,
    b: Seq<(CgroupFile, Seq<u8>)>,
    setting: Option<Resource<u64>>,
    file: CgroupFile,
)
    requires
        resource_setting_written(a, setting, file),
        untouched(b, file),
    ensures
        resource_setting_written(a + b, setting, file),
{
    broadcast use vstd::seq_lib::lemma_seq_concat_contains_all_elements;

}

/// Each resource setting of the memory controller goes to its own
/// interface file: `min` to `memory.min`, `low` to `memory.low`, `high` to
/// `memory.high`, `max` to `memory.max`, `swap_high` to `memory.swap.high`,
/// `swap_max` to `memory.swap.max` and `zswap_max` to `memory.zswap.max`, and
/// a file whose setting is unset is not written.
pub proof fn lemma_memory_settings_own_files(c: MemoryController)
    ensures
        resource_setting_written(c.spec_writes(), c.min, CgroupFile::MemoryMin),
        resource_setting_written(c.spec_writes(), c.low, CgroupFile::MemoryLow),
        resource_setting_written(c.spec_writes(), c.high, CgroupFile::MemoryHigh),
        resource_setting_written(c.spec_writes(), c.max, CgroupFile::MemoryMax),
        resource_setting_written(c.spec_writes(), c.swap_high, CgroupFile::MemorySwapHigh),
        resource_setting_written(c.spec_writes(), c.swap_max, CgroupFile::MemorySwapMax),
        resource_setting_written(c.spec_writes(), c.zswap_max, CgroupFile::MemoryZswapMax),
{
    reveal(MemoryController::spec_writes);
    // `min`
    {
        let p0 = (if c.subtree_control { one_write(CgroupFile::SubtreeControl, "+memory".spec_bytes()) } else { Seq::empty() });
        lemma_subtree_untouched(c.subtree_control, "+memory".spec_bytes(), CgroupFile::MemoryMin);
        lemma_written_at(p0, c.min, CgroupFile::MemoryMin);
        let q1 = p0 + resource_write(c.min, CgroupFile::MemoryMin);
        lemma_optional_untouched(c.low, CgroupFile::MemoryLow, |r: Resource<u64>| resource_text(r), CgroupFile::MemoryMin);
        lemma_written_extend(q1, resource_write(c.low, CgroupFile::MemoryLow), c.min, CgroupFile::MemoryMin);
        let q2 = q1 + resource_write(c.low, CgroupFile::MemoryLow);
        lemma_optional_untouched(c.high, CgroupFile::MemoryHigh, |r: Resource<u64>| resource_text(r), CgroupFile::MemoryMin);
        lemma_written_extend(q2, resource_write(c.high, CgroupFile::MemoryHigh), c.min, CgroupFile::MemoryMin);
        let q3 = q2 + resource_write(c.high, CgroupFile::MemoryHigh);
        lemma_optional_untouched(c.max, CgroupFile::MemoryMax, |r: Resource<u64>| resource_text(r), CgroupFile::MemoryMin);
        lemma_written_extend(q3, resource_write(c.max, CgroupFile::MemoryMax), c.min, CgroupFile::MemoryMin);
        let q4 = q3 + resource_write(c.max, CgroupFile::MemoryMax);
        lemma_optional_untouched(c.is_indivisible, CgroupFile::MemoryOomGroup, |b: bool| flag_text(b), CgroupFile::MemoryMin);
        lemma_written_extend(q4, flag_write(c.is_indivisible, CgroupFile::MemoryOomGroup), c.min, CgroupFile::MemoryMin);
        let q5 = q4 + flag_write(c.is_indivisible, CgroupFile::MemoryOomGroup);
        lemma_optional_untouched(c.swap_high, CgroupFile::MemorySwapHigh, |r: Resource<u64>| resource_text(r), CgroupFile::MemoryMin);
        lemma_written_extend(q5, resource_write(c.swap_high, CgroupFile::MemorySwapHigh), c.min, CgroupFile::MemoryMin);
        let q6 = q5 + resource_write(c.swap_high, CgroupFile::MemorySwapHigh);
        lemma_optional_untouched(c.swap_max, CgroupFile::MemorySwapMax, |r: Resource<u64>| resource_text(r), CgroupFile::MemoryMin);
        lemma_written_extend(q6, resource_write(c.swap_max, CgroupFile::MemorySwapMax), c.min, CgroupFile::MemoryMin);
        let q7 = q6 + resource_write(c.swap_max, CgroupFile::MemorySwapMax);
        lemma_optional_untouched(c.zswap_max, CgroupFile::MemoryZswapMax, |r: Resource<u64>| resource_text(r), CgroupFile::MemoryMin);
        lemma_written_extend(q7, resource_write(c.zswap_max, CgroupFile::MemoryZswapMax), c.min, CgroupFile::MemoryMin);
        let q8 = q7 + resource_write(c.zswap_max, CgroupFile::MemoryZswapMax);
        lemma_optional_untouched(c.disable_zswap_writeback, CgroupFile::MemoryZswapWriteback, |b: bool| flag_text(!b), CgroupFile::MemoryMin);
        lemma_written_extend(q8, optional_write(c.disable_zswap_writeback, CgroupFile::MemoryZswapWriteback, |b: bool| flag_text(!b)), c.min, CgroupFile::MemoryMin);
        let q9 = q8 + optional_write(c.disable_zswap_writeback, CgroupFile::MemoryZswapWriteback, |b: bool| flag_text(!b));
        assert(q9 == c.spec_writes());
    }
    // `low`
    {
        let p0 = (if c.subtree_control { one_write(CgroupFile::SubtreeControl, "+memory".spec_bytes()) } else { Seq::empty() });
        lemma_subtree_untouched(c.subtree_control, "+memory".spec_bytes(), CgroupFile::MemoryLow);
        lemma_optional_untouched(c.min, CgroupFile::MemoryMin, |r: Resource<u64>| resource_text(r), CgroupFile::MemoryLow);
        lemma_untouched_concat(p0, resource_write(c.min, CgroupFile::MemoryMin), CgroupFile::MemoryLow);
        let p1 = p0 + resource_write(c.min, CgroupFile::MemoryMin);
        lemma_written_at(p1, c.low, CgroupFile::MemoryLow);
        let q2 = p1 + resource_write(c.low, CgroupFile::MemoryLow);
        lemma_optional_untouched(c.high, CgroupFile::MemoryHigh, |r: Resource<u64>| resource_text(r), CgroupFile::MemoryLow);
        lemma_written_extend(q2, resource_write(c.high, CgroupFile::MemoryHigh), c.low, CgroupFile::MemoryLow);
        let q3 = q2 + resource_write(c.high, CgroupFile::MemoryHigh);
        lemma_optional_untouched(c.max, CgroupFile::MemoryMax, |r: Resource<u64>| resource_text(r), CgroupFile::MemoryLow);
        lemma_written_extend(q3, resource_write(c.max, CgroupFile::MemoryMax), c.low, CgroupFile::MemoryLow);
        let q4 = q3 + resource_write(c.max, CgroupFile::MemoryMax);
        lemma_optional_untouched(c.is_indivisible, CgroupFile::MemoryOomGroup, |b: bool| flag_text(b), CgroupFile::MemoryLow);
        lemma_written_extend(q4, flag_write(c.is_indivisible, CgroupFile::MemoryOomGroup), c.low, CgroupFile::MemoryLow);
        let q5 = q4 + flag_write(c.is_indivisible, CgroupFile::MemoryOomGroup);
        lemma_optional_untouched(c.swap_high, CgroupFile::MemorySwapHigh, |r: Resource<u64>| resource_text(r), CgroupFile::MemoryLow);
        lemma_written_extend(q5, resource_write(c.swap_high, CgroupFile::MemorySwapHigh), c.low, CgroupFile::MemoryLow);
        let q6 = q5 + resource_write(c.swap_high, CgroupFile::MemorySwapHigh);
        lemma_optional_untouched(c.swap_max, CgroupFile::MemorySwapMax, |r: Resource<u64>| resource_text(r), CgroupFile::MemoryLow);
        lemma_written_extend(q6, resource_write(c.swap_max, CgroupFile::MemorySwapMax), c.low, CgroupFile::MemoryLow);
        let q7 = q6 + resource_write(c.swap_max, CgroupFile::MemorySwapMax);
        lemma_optional_untouched(c.zswap_max, CgroupFile::MemoryZswapMax, |r: Resource<u64>| resource_text(r), CgroupFile::MemoryLow);
        lemma_written_extend(q7, resource_write(c.zswap_max, CgroupFile::MemoryZswapMax), c.low, CgroupFile::MemoryLow);
        let q8 = q7 + resource_write(c.zswap_max, CgroupFile::MemoryZswapMax);
        lemma_optional_untouched(c.disable_zswap_writeback, CgroupFile::MemoryZswapWriteback, |b: bool| flag_text(!b), CgroupFile::MemoryLow);
        lemma_written_extend(q8, optional_write(c.disable_zswap_writeback, CgroupFile::MemoryZswapWriteback, |b: bool| flag_text(!b)), c.low, CgroupFile::MemoryLow);
        let q9 = q8 + optional_write(c.disable_zswap_writeback, CgroupFile::MemoryZswapWriteback, |b: bool| flag_text(!b));
        assert(q9 == c.spec_writes());
    }
    // `high`
    {
        let p0 = (if c.subtree_control { one_write(CgroupFile::SubtreeControl, "+memory".spec_bytes()) } else { Seq::empty() });
        lemma_subtree_untouched(c.subtree_control, "+memory".spec_bytes(), CgroupFile::MemoryHigh);
        lemma_optional_untouched(c.min, CgroupFile::MemoryMin, |r: Resource<u64>| resource_text(r), CgroupFile::MemoryHigh);
        lemma_untouched_concat(p0, resource_write(c.min, CgroupFile::MemoryMin), CgroupFile::MemoryHigh);
        let p1 = p0 + resource_write(c.min, CgroupFile::MemoryMin);
        lemma_optional_untouched(c.low, CgroupFile::MemoryLow, |r: Resource<u64>| resource_text(r), CgroupFile::MemoryHigh);
        lemma_untouched_concat(p1, resource_write(c.low, CgroupFile::MemoryLow), CgroupFile::MemoryHigh);
        let p2 = p1 + resource_write(c.low, CgroupFile::MemoryLow);
        lemma_written_at(p2, c.high, CgroupFile::MemoryHigh);
        let q3 = p2 + resource_write(c.high, CgroupFile::MemoryHigh);
        lemma_optional_untouched(c.max, CgroupFile::MemoryMax, |r: Resource<u64>| resource_text(r), CgroupFile::MemoryHigh);
        lemma_written_extend(q3, resource_write(c.max, CgroupFile::MemoryMax), c.high, CgroupFile::MemoryHigh);
        let q4 = q3 + resource_write(c.max, CgroupFile::MemoryMax);
        lemma_optional_untouched(c.is_indivisible, CgroupFile::MemoryOomGroup, |b: bool| flag_text(b), CgroupFile::MemoryHigh);
        lemma_written_extend(q4, flag_write(c.is_indivisible, CgroupFile::MemoryOomGroup), c.high, CgroupFile::MemoryHigh);
        let q5 = q4 + flag_write(c.is_indivisible, CgroupFile::MemoryOomGroup);
        lemma_optional_untouched(c.swap_high, CgroupFile::MemorySwapHigh, |r: Resource<u64>| resource_text(r), CgroupFile::MemoryHigh);
        lemma_written_extend(q5, resource_write(c.swap_high, CgroupFile::MemorySwapHigh), c.high, CgroupFile::MemoryHigh);
        let q6 = q5 + resource_write(c.swap_high, CgroupFile::MemorySwapHigh);
        lemma_optional_untouched(c.swap_max, CgroupFile::MemorySwapMax, |r: Resource<u64>| resource_text(r), CgroupFile::MemoryHigh);
        lemma_written_extend(q6, resource_write(c.swap_max, CgroupFile::MemorySwapMax), c.high, CgroupFile::MemoryHigh);
        let q7 = q6 + resource_write(c.swap_max, CgroupFile::MemorySwapMax);
        lemma_optional_untouched(c.zswap_max, CgroupFile::MemoryZswapMax, |r: Resource<u64>| resource_text(r), CgroupFile::MemoryHigh);
        lemma_written_extend(q7, resource_write(c.zswap_max, CgroupFile::MemoryZswapMax), c.high, CgroupFile::MemoryHigh);
        let q8 = q7 + resource_write(c.zswap_max, CgroupFile::MemoryZswapMax);
        lemma_optional_untouched(c.disable_zswap_writeback, CgroupFile::MemoryZswapWriteback, |b: bool| flag_text(!b), CgroupFile::MemoryHigh);
        lemma_written_extend(q8, optional_write(c.disable_zswap_writeback, CgroupFile::MemoryZswapWriteback, |b: bool| flag_text(!b)), c.high, CgroupFile::MemoryHigh);
        let q9 = q8 + optional_write(c.disable_zswap_writeback, CgroupFile::MemoryZswapWriteback, |b: bool| flag_text(!b));
        assert(q9 == c.spec_writes());
    }
    // `max`
    {
        let p0 = (if c.subtree_control { one_write(CgroupFile::SubtreeControl, "+memory".spec_bytes()) } else { Seq::empty() });
        lemma_subtree_untouched(c.subtree_control, "+memory".spec_bytes(), CgroupFile::MemoryMax);
        lemma_optional_untouched(c.min, CgroupFile::MemoryMin, |r: Resource<u64>| resource_text(r), CgroupFile::MemoryMax);
        lemma_untouched_concat(p0, resource_write(c.min, CgroupFile::MemoryMin), CgroupFile::MemoryMax);
        let p1 = p0 + resource_write(c.min, CgroupFile::MemoryMin);
        lemma_optional_untouched(c.low, CgroupFile::MemoryLow, |r: Resource<u64>| resource_text(r), CgroupFile::MemoryMax);
        lemma_untouched_concat(p1, resource_write(c.low, CgroupFile::MemoryLow), CgroupFile::MemoryMax);
        let p2 = p1 + resource_write(c.low, CgroupFile::MemoryLow);
        lemma_optional_untouched(c.high, CgroupFile::MemoryHigh, |r: Resource<u64>| resource_text(r), CgroupFile::MemoryMax);
        lemma_untouched_concat(p2, resource_write(c.high, CgroupFile::MemoryHigh), CgroupFile::MemoryMax);
        let p3 = p2 + resource_write(c.high, CgroupFile::MemoryHigh);
        lemma_written_at(p3, c.max, CgroupFile::MemoryMax);
        let q4 = p3 + resource_write(c.max, CgroupFile::MemoryMax);
        lemma_optional_untouched(c.is_indivisible, CgroupFile::MemoryOomGroup, |b: bool| flag_text(b), CgroupFile::MemoryMax);
        lemma_written_extend(q4, flag_write(c.is_indivisible, CgroupFile::MemoryOomGroup), c.max, CgroupFile::MemoryMax);
        let q5 = q4 + flag_write(c.is_indivisible, CgroupFile::MemoryOomGroup);
        lemma_optional_untouched(c.swap_high, CgroupFile::MemorySwapHigh, |r: Resource<u64>| resource_text(r), CgroupFile::MemoryMax);
        lemma_written_extend(q5, resource_write(c.swap_high, CgroupFile::MemorySwapHigh), c.max, CgroupFile::MemoryMax);
        let q6 = q5 + resource_write(c.swap_high, CgroupFile::MemorySwapHigh);
        lemma_optional_untouched(c.swap_max, CgroupFile::MemorySwapMax, |r: Resource<u64>| resource_text(r), CgroupFile::MemoryMax);
        lemma_written_extend(q6, resource_write(c.swap_max, CgroupFile::MemorySwapMax), c.max, CgroupFile::MemoryMax);
        let q7 = q6 + resource_write(c.swap_max, CgroupFile::MemorySwapMax);
        lemma_optional_untouched(c.zswap_max, CgroupFile::MemoryZswapMax, |r: Resource<u64>| resource_text(r), CgroupFile::MemoryMax);
        lemma_written_extend(q7, resource_write(c.zswap_max, CgroupFile::MemoryZswapMax), c.max, CgroupFile::MemoryMax);
        let q8 = q7 + resource_write(c.zswap_max, CgroupFile::MemoryZswapMax);
        lemma_optional_untouched(c.disable_zswap_writeback, CgroupFile::MemoryZswapWriteback, |b: bool| flag_text(!b), CgroupFile::MemoryMax);
        lemma_written_extend(q8, optional_write(c.disable_zswap_writeback, CgroupFile::MemoryZswapWriteback, |b: bool| flag_text(!b)), c.max, CgroupFile::MemoryMax);
        let q9 = q8 + optional_write(c.disable_zswap_writeback, CgroupFile::MemoryZswapWriteback, |b: bool| flag_text(!b));
        assert(q9 == c.spec_writes());
    }
    // `swap_high`
    {
        let p0 = (if c.subtree_control { one_write(CgroupFile::SubtreeControl, "+memory".spec_bytes()) } else { Seq::empty() });
        lemma_subtree_untouched(c.subtree_control, "+memory".spec_bytes(), CgroupFile::MemorySwapHigh);
        lemma_optional_untouched(c.min, CgroupFile::MemoryMin, |r: Resource<u64>| resource_text(r), CgroupFile::MemorySwapHigh);
        lemma_untouched_concat(p0, resource_write(c.min, CgroupFile::MemoryMin), CgroupFile::MemorySwapHigh);
        let p1 = p0 + resource_write(c.min, CgroupFile::MemoryMin);
        lemma_optional_untouched(c.low, CgroupFile::MemoryLow, |r: Resource<u64>| resource_text(r), CgroupFile::MemorySwapHigh);
        lemma_untouched_concat(p1, resource_write(c.low, CgroupFile::MemoryLow), CgroupFile::MemorySwapHigh);
        let p2 = p1 + resource_write(c.low, CgroupFile::MemoryLow);
        lemma_optional_untouched(c.high, CgroupFile::MemoryHigh, |r: Resource<u64>| resource_text(r), CgroupFile::MemorySwapHigh);
        lemma_untouched_concat(p2, resource_write(c.high, CgroupFile::MemoryHigh), CgroupFile::MemorySwapHigh);
        let p3 = p2 + resource_write(c.high, CgroupFile::MemoryHigh);
        lemma_optional_untouched(c.max, CgroupFile::MemoryMax, |r: Resource<u64>| resource_text(r), CgroupFile::MemorySwapHigh);
        lemma_untouched_concat(p3, resource_write(c.max, CgroupFile::MemoryMax), CgroupFile::MemorySwapHigh);
        let p4 = p3 + resource_write(c.max, CgroupFile::MemoryMax);
        lemma_optional_untouched(c.is_indivisible, CgroupFile::MemoryOomGroup, |b: bool| flag_text(b), CgroupFile::MemorySwapHigh);
        lemma_untouched_concat(p4, flag_write(c.is_indivisible, CgroupFile::MemoryOomGroup), CgroupFile::MemorySwapHigh);
        let p5 = p4 + flag_write(c.is_indivisible, CgroupFile::MemoryOomGroup);
        lemma_written_at(p5, c.swap_high, CgroupFile::MemorySwapHigh);
        let q6 = p5 + resource_write(c.swap_high, CgroupFile::MemorySwapHigh);
        lemma_optional_untouched(c.swap_max, CgroupFile::MemorySwapMax, |r: Resource<u64>| resource_text(r), CgroupFile::MemorySwapHigh);
        lemma_written_extend(q6, resource_write(c.swap_max, CgroupFile::MemorySwapMax), c.swap_high, CgroupFile::MemorySwapHigh);
        let q7 = q6 + resource_write(c.swap_max, CgroupFile::MemorySwapMax);
        lemma_optional_untouched(c.zswap_max, CgroupFile::MemoryZswapMax, |r: Resource<u64>| resource_text(r), CgroupFile::MemorySwapHigh);
        lemma_written_extend(q7, resource_write(c.zswap_max, CgroupFile::MemoryZswapMax), c.swap_high, CgroupFile::MemorySwapHigh);
        let q8 = q7 + resource_write(c.zswap_max, CgroupFile::MemoryZswapMax);
        lemma_optional_untouched(c.disable_zswap_writeback, CgroupFile::MemoryZswapWriteback, |b: bool| flag_text(!b), CgroupFile::MemorySwapHigh);
        lemma_written_extend(q8, optional_write(c.disable_zswap_writeback, CgroupFile::MemoryZswapWriteback, |b: bool| flag_text(!b)), c.swap_high, CgroupFile::MemorySwapHigh);
        let q9 = q8 + optional_write(c.disable_zswap_writeback, CgroupFile::MemoryZswapWriteback, |b: bool| flag_text(!b));
        assert(q9 == c.spec_writes());
    }
    // `swap_max`
    {
        let p0 = (if c.subtree_control { one_write(CgroupFile::SubtreeControl, "+memory".spec_bytes()) } else { Seq::empty() });
        lemma_subtree_untouched(c.subtree_control, "+memory".spec_bytes(), CgroupFile::MemorySwapMax);
        lemma_optional_untouched(c.min, CgroupFile::MemoryMin, |r: Resource<u64>| resource_text(r), CgroupFile::MemorySwapMax);
        lemma_untouched_concat(p0, resource_write(c.min, CgroupFile::MemoryMin), CgroupFile::MemorySwapMax);
        let p1 = p0 + resource_write(c.min, CgroupFile::MemoryMin);
        lemma_optional_untouched(c.low, CgroupFile::MemoryLow, |r: Resource<u64>| resource_text(r), CgroupFile::MemorySwapMax);
        lemma_untouched_concat(p1, resource_write(c.low, CgroupFile::MemoryLow), CgroupFile::MemorySwapMax);
        let p2 = p1 + resource_write(c.low, CgroupFile::MemoryLow);
        lemma_optional_untouched(c.high, CgroupFile::MemoryHigh, |r: Resource<u64>| resource_text(r), CgroupFile::MemorySwapMax);
        lemma_untouched_concat(p2, resource_write(c.high, CgroupFile::MemoryHigh), CgroupFile::MemorySwapMax);
        let p3 = p2 + resource_write(c.high, CgroupFile::MemoryHigh);
        lemma_optional_untouched(c.max, CgroupFile::MemoryMax, |r: Resource<u64>| resource_text(r), CgroupFile::MemorySwapMax);
        lemma_untouched_concat(p3, resource_write(c.max, CgroupFile::MemoryMax), CgroupFile::MemorySwapMax);
        let p4 = p3 + resource_write(c.max, CgroupFile::MemoryMax);
        lemma_optional_untouched(c.is_indivisible, CgroupFile::MemoryOomGroup, |b: bool| flag_text(b), CgroupFile::MemorySwapMax);
        lemma_untouched_concat(p4, flag_write(c.is_indivisible, CgroupFile::MemoryOomGroup), CgroupFile::MemorySwapMax);
        let p5 = p4 + flag_write(c.is_indivisible, CgroupFile::MemoryOomGroup);
        lemma_optional_untouched(c.swap_high, CgroupFile::MemorySwapHigh, |r: Resource<u64>| resource_text(r), CgroupFile::MemorySwapMax);
        lemma_untouched_concat(p5, resource_write(c.swap_high, CgroupFile::MemorySwapHigh), CgroupFile::MemorySwapMax);
        let p6 = p5 + resource_write(c.swap_high, CgroupFile::MemorySwapHigh);
        lemma_written_at(p6, c.swap_max, CgroupFile::MemorySwapMax);
        let q7 = p6 + resource_write(c.swap_max, CgroupFile::MemorySwapMax);
        lemma_optional_untouched(c.zswap_max, CgroupFile::MemoryZswapMax, |r: Resource<u64>| resource_text(r), CgroupFile::MemorySwapMax);
        lemma_written_extend(q7, resource_write(c.zswap_max, CgroupFile::MemoryZswapMax), c.swap_max, CgroupFile::MemorySwapMax);
        let q8 = q7 + resource_write(c.zswap_max, CgroupFile::MemoryZswapMax);
        lemma_optional_untouched(c.disable_zswap_writeback, CgroupFile::MemoryZswapWriteback, |b: bool| flag_text(!b), CgroupFile::MemorySwapMax);
        lemma_written_extend(q8, optional_write(c.disable_zswap_writeback, CgroupFile::MemoryZswapWriteback, |b: bool| flag_text(!b)), c.swap_max, CgroupFile::MemorySwapMax);
        let q9 = q8 + optional_write(c.disable_zswap_writeback, CgroupFile::MemoryZswapWriteback, |b: bool| flag_text(!b));
        assert(q9 == c.spec_writes());
    }
    // `zswap_max`
    {
        let p0 = (if c.subtree_control { one_write(CgroupFile::SubtreeControl, "+memory".spec_bytes()) } else { Seq::empty() });
        lemma_subtree_untouched(c.subtree_control, "+memory".spec_bytes(), CgroupFile::MemoryZswapMax);
        lemma_optional_untouched(c.min, CgroupFile::MemoryMin, |r: Resource<u64>| resource_text(r), CgroupFile::MemoryZswapMax);
        lemma_untouched_concat(p0, resource_write(c.min, CgroupFile::MemoryMin), CgroupFile::MemoryZswapMax);
        let p1 = p0 + resource_write(c.min, CgroupFile::MemoryMin);
        lemma_optional_untouched(c.low, CgroupFile::MemoryLow, |r: Resource<u64>| resource_text(r), CgroupFile::MemoryZswapMax);
        lemma_untouched_concat(p1, resource_write(c.low, CgroupFile::MemoryLow), CgroupFile::MemoryZswapMax);
        let p2 = p1 + resource_write(c.low, CgroupFile::MemoryLow);
        lemma_optional_untouched(c.high, CgroupFile::MemoryHigh, |r: Resource<u64>| resource_text(r), CgroupFile::MemoryZswapMax);
        lemma_untouched_concat(p2, resource_write(c.high, CgroupFile::MemoryHigh), CgroupFile::MemoryZswapMax);
        let p3 = p2 + resource_write(c.high, CgroupFile::MemoryHigh);
        lemma_optional_untouched(c.max, CgroupFile::MemoryMax, |r: Resource<u64>| resource_text(r), CgroupFile::MemoryZswapMax);
        lemma_untouched_concat(p3, resource_write(c.max, CgroupFile::MemoryMax), CgroupFile::MemoryZswapMax);
        let p4 = p3 + resource_write(c.max, CgroupFile::MemoryMax);
        lemma_optional_untouched(c.is_indivisible, CgroupFile::MemoryOomGroup, |b: bool| flag_text(b), CgroupFile::MemoryZswapMax);
        lemma_untouched_concat(p4, flag_write(c.is_indivisible, CgroupFile::MemoryOomGroup), CgroupFile::MemoryZswapMax);
        let p5 = p4 + flag_write(c.is_indivisible, CgroupFile::MemoryOomGroup);
        lemma_optional_untouched(c.swap_high, CgroupFile::MemorySwapHigh, |r: Resource<u64>| resource_text(r), CgroupFile::MemoryZswapMax);
        lemma_untouched_concat(p5, resource_write(c.swap_high, CgroupFile::MemorySwapHigh), CgroupFile::MemoryZswapMax);
        let p6 = p5 + resource_write(c.swap_high, CgroupFile::MemorySwapHigh);
        lemma_optional_untouched(c.swap_max, CgroupFile::MemorySwapMax, |r: Resource<u64>| resource_text(r), CgroupFile::MemoryZswapMax);
        lemma_untouched_concat(p6, resource_write(c.swap_max, CgroupFile::MemorySwapMax), CgroupFile::MemoryZswapMax);
        let p7 = p6 + resource_write(c.swap_max, CgroupFile::MemorySwapMax);
        lemma_written_at(p7, c.zswap_max, CgroupFile::MemoryZswapMax);
        let q8 = p7 + resource_write(c.zswap_max, CgroupFile::MemoryZswapMax);
        lemma_optional_untouched(c.disable_zswap_writeback, CgroupFile::MemoryZswapWriteback, |b: bool| flag_text(!b), CgroupFile::MemoryZswapMax);
        lemma_written_extend(q8, optional_write(c.disable_zswap_writeback, CgroupFile::MemoryZswapWriteback, |b: bool| flag_text(!b)), c.zswap_max, CgroupFile::MemoryZswapMax);
        let q9 = q8 + optional_write(c.disable_zswap_writeback, CgroupFile::MemoryZswapWriteback, |b: bool| flag_text(!b));
        assert(q9 == c.spec_writes());
    }
}

/// Whether a plan writes an optional setting to its file: the setting's
/// text when it is set, and nothing at all to that file when it is unset.
pub open spec fn setting_written<T>(
    w: Seq<(CgroupFile, Seq<u8>)>,
    setting: Option<T>,
    file: CgroupFile,
    text: spec_fn(T) -> Seq<u8>,
) -> bool {
    match setting {
        Some(v) => w.contains((file, text(v))),
        None => untouched(w, file),
    }
}

proof fn lemma_setting_at<T>(
    a: Seq<(CgroupFile, Seq<u8>)>,
    setting: Option<T>,
    file: CgroupFile,
    text: spec_fn(T) -> Seq<u8>,
)
    requires
        untouched(a, file),
    ensures
        setting_written(a + optional_write(setting, file, text), setting, file, text),
{
    broadcast use vstd::seq_lib::lemma_seq_concat_contains_all_elements;
    broadcast use vstd::seq_lib::lemma_seq_contains;
    broadcast use vstd::seq_lib::lemma_seq_empty_contains_nothing;

    if let Some(v) = setting {
        assert(optional_write(setting, file, text)[0] == (file, text(v)));
    }
}

proof fn lemma_setting_extend<T>(
    a: Seq<(CgroupFile, Seq<u8>)>,
    b: Seq<(CgroupFile, Seq<u8>)>,
    setting: Option<T>,
    file: CgroupFile,
    text: spec_fn(T) -> Seq<u8>,
)
    requires
        setting_written(a, setting, file, text),
        untouched(b, file),
    ensures
        setting_written(a + b, setting, file, text),
{
    broadcast use vstd::seq_lib::lemma_seq_concat_contains_all_elements;

}

proof fn lemma_weight_untouched(weight: Option<CpuWeight>, file: CgroupFile)
    requires
        file != CgroupFile::CpuWeight,
        file != CgroupFile::CpuWeightNice,
    ensures
        untouched(
            match weight {
                Some(w) => weight_write(w),
                None => Seq::empty(),
            },
            file,
        ),
{
    broadcast use vstd::seq_lib::lemma_seq_contains;
    broadcast use vstd::seq_lib::lemma_seq_empty_contains_nothing;

}

/// Configuration options for the [`io` controller].
///
/// [`io` controller]: https://www.kernel.org/doc/html/latest/admin-guide/cgroup-v2.html#io-interface-files
#[derive(PartialEq, Eq, Structural, Copy, Clone, Debug)]
pub struct IoController {
    /// Whether to give this controller to the subtree.
    pub subtree_control: bool,
}

impl Default for IoController {
    fn default() -> (r: Self)
        ensures
            r == (IoController { subtree_control: false }),
    {
        IoController { subtree_control: false }
    }
}

impl IoController {
    /// Whether to give the io controller to the subtree.
    pub fn subtree_control(self, subtree_control: bool) -> (r: Self)
        ensures
            r == (IoController { subtree_control }),
    {
        IoController { subtree_control }
    }

    /// The writes that apply this configuration.
    #[verifier::opaque]
    pub open spec fn spec_writes(self) -> Seq<(CgroupFile, Seq<u8>)> {
        if self.subtree_control {
            one_write(CgroupFile::SubtreeControl, "+io".spec_bytes())
        } else {
            Seq::empty()
        }
    }

    /// The interface-file writes that apply this configuration.
    pub fn writes(&self) -> (w: Vec<CgroupWrite>)
        ensures
            writes_view(w@) == self.spec_writes(),
    {
        reveal(IoController::spec_writes);
        let mut w: Vec<CgroupWrite> = Vec::new();
        if self.subtree_control {
            push_write(&mut w, CgroupFile::SubtreeControl, literal("+io"));
        }
        assert(writes_view(w@) =~= self.spec_writes());
        w
    }
}

/// Configuration options for the [`pids` controller].
///
/// [`pids` controller]: https://www.kernel.org/doc/html/latest/admin-guide/cgroup-v2.html#pid-interface-files
#[derive(PartialEq, Eq, Structural, Copy, Clone, Debug)]
pub struct PidsController {
    /// Whether to give this controller to the subtree.
    pub subtree_control: bool,
    /// Hard limit on the number of processes.
    pub max: Option<Resource<u64>>,
}

impl Default for PidsController {
    fn default() -> (r: Self)
        ensures
            r == (PidsController { subtree_control: false, max: None }),
    {
        PidsController { subtree_control: false, max: None }
    }
}

impl PidsController {
    /// Whether to give the pids controller to the subtree.
    pub fn subtree_control(self, subtree_control: bool) -> (r: Self)
        ensures
            r == (PidsController { subtree_control, ..self }),
    {
        PidsController { subtree_control, ..self }
    }

    /// Set the `pids.max` threshold for the cgroup.
    pub fn max(self, max: Resource<u64>) -> (r: Self)
        ensures
            r == (PidsController { max: Some(max), ..self }),
    {
        PidsController { max: Some(max), ..self }
    }

    /// Unset the `pids.max` threshold for the cgroup.
    pub fn unset_max(self) -> (r: Self)
        ensures
            r == (PidsController { max: None, ..self }),
    {
        PidsController { max: None, ..self }
    }

    /// The writes that apply this configuration, in order.
    #[verifier::opaque]
    pub open spec fn spec_writes(self) -> Seq<(CgroupFile, Seq<u8>)> {
        (if self.subtree_control {
            one_write(CgroupFile::SubtreeControl, "+pids".spec_bytes())
        } else {
            Seq::empty()
        }) + resource_write(self.max, CgroupFile::PidsMax)
    }

    /// The interface-file writes that apply this configuration.
    pub fn writes(&self) -> (w: Vec<CgroupWrite>)
        ensures
            writes_view(w@) == self.spec_writes(),
    {
        reveal(PidsController::spec_writes);
        let mut w: Vec<CgroupWrite> = Vec::new();
        if self.subtree_control {
            push_write(&mut w, CgroupFile::SubtreeControl, literal("+pids"));
        }
        assert(writes_view(w@) =~= if self.subtree_control {
            one_write(CgroupFile::SubtreeControl, "+pids".spec_bytes())
        } else {
            Seq::empty()
        });
        push_resource(&mut w, self.max, CgroupFile::PidsMax);
        w
    }
}

/// Each limit of the cpu controller goes to its own interface file: `max`
/// to `cpu.max`, `max_burst` to `cpu.max.burst`, `uclamp_min` to
/// `cpu.uclamp.min`, `uclamp_max` to `cpu.uclamp.max` and `is_idle` to
/// `cpu.idle`, and a file whose setting is unset is not written.
pub proof fn lemma_cpu_settings_own_files(c: CpuController)
    ensures
        setting_written(c.spec_writes(), c.max, CgroupFile::CpuMax, |m: (Resource<u64>, u64)| cpu_max_text(m)),
        setting_written(c.spec_writes(), c.max_burst, CgroupFile::CpuMaxBurst, |b: u64| decimal(b as int)),
        setting_written(c.spec_writes(), c.uclamp_min, CgroupFile::CpuUclampMin, |u: Resource<UclampValue>| uclamp_resource_text(u)),
        setting_written(c.spec_writes(), c.uclamp_max, CgroupFile::CpuUclampMax, |u: Resource<UclampValue>| uclamp_resource_text(u)),
        setting_written(c.spec_writes(), c.is_idle, CgroupFile::CpuIdle, |b: bool| flag_text(b)),
{
    reveal(CpuController::spec_writes);
    // `max`
    {
        let p0 = (if c.subtree_control { one_write(CgroupFile::SubtreeControl, "+cpu".spec_bytes()) } else { Seq::empty() });
        lemma_subtree_untouched(c.subtree_control, "+cpu".spec_bytes(), CgroupFile::CpuMax);
        lemma_weight_untouched(c.weight, CgroupFile::CpuMax);
        lemma_untouched_concat(p0, (match c.weight { Some(w) => weight_write(w), None => Seq::empty() }), CgroupFile::CpuMax);
        let p1 = p0 + (match c.weight { Some(w) => weight_write(w), None => Seq::empty() });
        lemma_setting_at(p1, c.max, CgroupFile::CpuMax, |m: (Resource<u64>, u64)| cpu_max_text(m));
        let q2 = p1 + optional_write(c.max, CgroupFile::CpuMax, |m: (Resource<u64>, u64)| cpu_max_text(m));
        lemma_optional_untouched(c.max_burst, CgroupFile::CpuMaxBurst, |b: u64| decimal(b as int), CgroupFile::CpuMax);
        lemma_setting_extend(q2, optional_write(c.max_burst, CgroupFile::CpuMaxBurst, |b: u64| decimal(b as int)), c.max, CgroupFile::CpuMax, |m: (Resource<u64>, u64)| cpu_max_text(m));
        let q3 = q2 + optional_write(c.max_burst, CgroupFile::CpuMaxBurst, |b: u64| decimal(b as int));
        lemma_optional_untouched(c.uclamp_min, CgroupFile::CpuUclampMin, |u: Resource<UclampValue>| uclamp_resource_text(u), CgroupFile::CpuMax);
        lemma_setting_extend(q3, optional_write(c.uclamp_min, CgroupFile::CpuUclampMin, |u: Resource<UclampValue>| uclamp_resource_text(u)), c.max, CgroupFile::CpuMax, |m: (Resource<u64>, u64)| cpu_max_text(m));
        let q4 = q3 + optional_write(c.uclamp_min, CgroupFile::CpuUclampMin, |u: Resource<UclampValue>| uclamp_resource_text(u));
        lemma_optional_untouched(c.uclamp_max, CgroupFile::CpuUclampMax, |u: Resource<UclampValue>| uclamp_resource_text(u), CgroupFile::CpuMax);
        lemma_setting_extend(q4, optional_write(c.uclamp_max, CgroupFile::CpuUclampMax, |u: Resource<UclampValue>| uclamp_resource_text(u)), c.max, CgroupFile::CpuMax, |m: (Resource<u64>, u64)| cpu_max_text(m));
        let q5 = q4 + optional_write(c.uclamp_max, CgroupFile::CpuUclampMax, |u: Resource<UclampValue>| uclamp_resource_text(u));
        lemma_optional_untouched(c.is_idle, CgroupFile::CpuIdle, |b: bool| flag_text(b), CgroupFile::CpuMax);
        lemma_setting_extend(q5, optional_write(c.is_idle, CgroupFile::CpuIdle, |b: bool| flag_text(b)), c.max, CgroupFile::CpuMax, |m: (Resource<u64>, u64)| cpu_max_text(m));
        let q6 = q5 + optional_write(c.is_idle, CgroupFile::CpuIdle, |b: bool| flag_text(b));
        assert(q6 == c.spec_writes());
    }
    // `max_burst`
    {
        let p0 = (if c.subtree_control { one_write(CgroupFile::SubtreeControl, "+cpu".spec_bytes()) } else { Seq::empty() });
        lemma_subtree_untouched(c.subtree_control, "+cpu".spec_bytes(), CgroupFile::CpuMaxBurst);
        lemma_weight_untouched(c.weight, CgroupFile::CpuMaxBurst);
        lemma_untouched_concat(p0, (match c.weight { Some(w) => weight_write(w), None => Seq::empty() }), CgroupFile::CpuMaxBurst);
        let p1 = p0 + (match c.weight { Some(w) => weight_write(w), None => Seq::empty() });
        lemma_optional_untouched(c.max, CgroupFile::CpuMax, |m: (Resource<u64>, u64)| cpu_max_text(m), CgroupFile::CpuMaxBurst);
        lemma_untouched_concat(p1, optional_write(c.max, CgroupFile::CpuMax, |m: (Resource<u64>, u64)| cpu_max_text(m)), CgroupFile::CpuMaxBurst);
        let p2 = p1 + optional_write(c.max, CgroupFile::CpuMax, |m: (Resource<u64>, u64)| cpu_max_text(m));
        lemma_setting_at(p2, c.max_burst, CgroupFile::CpuMaxBurst, |b: u64| decimal(b as int));
        let q3 = p2 + optional_write(c.max_burst, CgroupFile::CpuMaxBurst, |b: u64| decimal(b as int));
        lemma_optional_untouched(c.uclamp_min, CgroupFile::CpuUclampMin, |u: Resource<UclampValue>| uclamp_resource_text(u), CgroupFile::CpuMaxBurst);
        lemma_setting_extend(q3, optional_write(c.uclamp_min, CgroupFile::CpuUclampMin, |u: Resource<UclampValue>| uclamp_resource_text(u)), c.max_burst, CgroupFile::CpuMaxBurst, |b: u64| decimal(b as int));
        let q4 = q3 + optional_write(c.uclamp_min, CgroupFile::CpuUclampMin, |u: Resource<UclampValue>| uclamp_resource_text(u));
        lemma_optional_untouched(c.uclamp_max, CgroupFile::CpuUclampMax, |u: Resource<UclampValue>| uclamp_resource_text(u), CgroupFile::CpuMaxBurst);
        lemma_setting_extend(q4, optional_write(c.uclamp_max, CgroupFile::CpuUclampMax, |u: Resource<UclampValue>| uclamp_resource_text(u)), c.max_burst, CgroupFile::CpuMaxBurst, |b: u64| decimal(b as int));
        let q5 = q4 + optional_write(c.uclamp_max, CgroupFile::CpuUclampMax, |u: Resource<UclampValue>| uclamp_resource_text(u));
        lemma_optional_untouched(c.is_idle, CgroupFile::CpuIdle, |b: bool| flag_text(b), CgroupFile::CpuMaxBurst);
        lemma_setting_extend(q5, optional_write(c.is_idle, CgroupFile::CpuIdle, |b: bool| flag_text(b)), c.max_burst, CgroupFile::CpuMaxBurst, |b: u64| decimal(b as int));
        let q6 = q5 + optional_write(c.is_idle, CgroupFile::CpuIdle, |b: bool| flag_text(b));
        assert(q6 == c.spec_writes());
    }
    // `uclamp_min`
    {
        let p0 = (if c.subtree_control { one_write(CgroupFile::SubtreeControl, "+cpu".spec_bytes()) } else { Seq::empty() });
        lemma_subtree_untouched(c.subtree_control, "+cpu".spec_bytes(), CgroupFile::CpuUclampMin);
        lemma_weight_untouched(c.weight, CgroupFile::CpuUclampMin);
        lemma_untouched_concat(p0, (match c.weight { Some(w) => weight_write(w), None => Seq::empty() }), CgroupFile::CpuUclampMin);
        let p1 = p0 + (match c.weight { Some(w) => weight_write(w), None => Seq::empty() });
        lemma_optional_untouched(c.max, CgroupFile::CpuMax, |m: (Resource<u64>, u64)| cpu_max_text(m), CgroupFile::CpuUclampMin);
        lemma_untouched_concat(p1, optional_write(c.max, CgroupFile::CpuMax, |m: (Resource<u64>, u64)| cpu_max_text(m)), CgroupFile::CpuUclampMin);
        let p2 = p1 + optional_write(c.max, CgroupFile::CpuMax, |m: (Resource<u64>, u64)| cpu_max_text(m));
        lemma_optional_untouched(c.max_burst, CgroupFile::CpuMaxBurst, |b: u64| decimal(b as int), CgroupFile::CpuUclampMin);
        lemma_untouched_concat(p2, optional_write(c.max_burst, CgroupFile::CpuMaxBurst, |b: u64| decimal(b as int)), CgroupFile::CpuUclampMin);
        let p3 = p2 + optional_write(c.max_burst, CgroupFile::CpuMaxBurst, |b: u64| decimal(b as int));
        lemma_setting_at(p3, c.uclamp_min, CgroupFile::CpuUclampMin, |u: Resource<UclampValue>| uclamp_resource_text(u));
        let q4 = p3 + optional_write(c.uclamp_min, CgroupFile::CpuUclampMin, |u: Resource<UclampValue>| uclamp_resource_text(u));
        lemma_optional_untouched(c.uclamp_max, CgroupFile::CpuUclampMax, |u: Resource<UclampValue>| uclamp_resource_text(u), CgroupFile::CpuUclampMin);
        lemma_setting_extend(q4, optional_write(c.uclamp_max, CgroupFile::CpuUclampMax, |u: Resource<UclampValue>| uclamp_resource_text(u)), c.uclamp_min, CgroupFile::CpuUclampMin, |u: Resource<UclampValue>| uclamp_resource_text(u));
        let q5 = q4 + optional_write(c.uclamp_max, CgroupFile::CpuUclampMax, |u: Resource<UclampValue>| uclamp_resource_text(u));
        lemma_optional_untouched(c.is_idle, CgroupFile::CpuIdle, |b: bool| flag_text(b), CgroupFile::CpuUclampMin);
        lemma_setting_extend(q5, optional_write(c.is_idle, CgroupFile::CpuIdle, |b: bool| flag_text(b)), c.uclamp_min, CgroupFile::CpuUclampMin, |u: Resource<UclampValue>| uclamp_resource_text(u));
        let q6 = q5 + optional_write(c.is_idle, CgroupFile::CpuIdle, |b: bool| flag_text(b));
        assert(q6 == c.spec_writes());
    }
    // `uclamp_max`
    {
        let p0 = (if c.subtree_control { one_write(CgroupFile::SubtreeControl, "+cpu".spec_bytes()) } else { Seq::empty() });
        lemma_subtree_untouched(c.subtree_control, "+cpu".spec_bytes(), CgroupFile::CpuUclampMax);
        lemma_weight_untouched(c.weight, CgroupFile::CpuUclampMax);
        lemma_untouched_concat(p0, (match c.weight { Some(w) => weight_write(w), None => Seq::empty() }), CgroupFile::CpuUclampMax);
        let p1 = p0 + (match c.weight { Some(w) => weight_write(w), None => Seq::empty() });
        lemma_optional_untouched(c.max, CgroupFile::CpuMax, |m: (Resource<u64>, u64)| cpu_max_text(m), CgroupFile::CpuUclampMax);
        lemma_untouched_concat(p1, optional_write(c.max, CgroupFile::CpuMax, |m: (Resource<u64>, u64)| cpu_max_text(m)), CgroupFile::CpuUclampMax);
        let p2 = p1 + optional_write(c.max, CgroupFile::CpuMax, |m: (Resource<u64>, u64)| cpu_max_text(m));
        lemma_optional_untouched(c.max_burst, CgroupFile::CpuMaxBurst, |b: u64| decimal(b as int), CgroupFile::CpuUclampMax);
        lemma_untouched_concat(p2, optional_write(c.max_burst, CgroupFile::CpuMaxBurst, |b: u64| decimal(b as int)), CgroupFile::CpuUclampMax);
        let p3 = p2 + optional_write(c.max_burst, CgroupFile::CpuMaxBurst, |b: u64| decimal(b as int));
        lemma_optional_untouched(c.uclamp_min, CgroupFile::CpuUclampMin, |u: Resource<UclampValue>| uclamp_resource_text(u), CgroupFile::CpuUclampMax);
        lemma_untouched_concat(p3, optional_write(c.uclamp_min, CgroupFile::CpuUclampMin, |u: Resource<UclampValue>| uclamp_resource_text(u)), CgroupFile::CpuUclampMax);
        let p4 = p3 + optional_write(c.uclamp_min, CgroupFile::CpuUclampMin, |u: Resource<UclampValue>| uclamp_resource_text(u));
        lemma_setting_at(p4, c.uclamp_max, CgroupFile::CpuUclampMax, |u: Resource<UclampValue>| uclamp_resource_text(u));
        let q5 = p4 + optional_write(c.uclamp_max, CgroupFile::CpuUclampMax, |u: Resource<UclampValue>| uclamp_resource_text(u));
        lemma_optional_untouched(c.is_idle, CgroupFile::CpuIdle, |b: bool| flag_text(b), CgroupFile::CpuUclampMax);
        lemma_setting_extend(q5, optional_write(c.is_idle, CgroupFile::CpuIdle, |b: bool| flag_text(b)), c.uclamp_max, CgroupFile::CpuUclampMax, |u: Resource<UclampValue>| uclamp_resource_text(u));
        let q6 = q5 + optional_write(c.is_idle, CgroupFile::CpuIdle, |b: bool| flag_text(b));
        assert(q6 == c.spec_writes());
    }
    // `is_idle`
    {
        let p0 = (if c.subtree_control { one_write(CgroupFile::SubtreeControl, "+cpu".spec_bytes()) } else { Seq::empty() });
        lemma_subtree_untouched(c.subtree_control, "+cpu".spec_bytes(), CgroupFile::CpuIdle);
        lemma_weight_untouched(c.weight, CgroupFile::CpuIdle);
        lemma_untouched_concat(p0, (match c.weight { Some(w) => weight_write(w), None => Seq::empty() }), CgroupFile::CpuIdle);
        let p1 = p0 + (match c.weight { Some(w) => weight_write(w), None => Seq::empty() });
        lemma_optional_untouched(c.max, CgroupFile::CpuMax, |m: (Resource<u64>, u64)| cpu_max_text(m), CgroupFile::CpuIdle);
        lemma_untouched_concat(p1, optional_write(c.max, CgroupFile::CpuMax, |m: (Resource<u64>, u64)| cpu_max_text(m)), CgroupFile::CpuIdle);
        let p2 = p1 + optional_write(c.max, CgroupFile::CpuMax, |m: (Resource<u64>, u64)| cpu_max_text(m));
        lemma_optional_untouched(c.max_burst, CgroupFile::CpuMaxBurst, |b: u64| decimal(b as int), CgroupFile::CpuIdle);
        lemma_untouched_concat(p2, optional_write(c.max_burst, CgroupFile::CpuMaxBurst, |b: u64| decimal(b as int)), CgroupFile::CpuIdle);
        let p3 = p2 + optional_write(c.max_burst, CgroupFile::CpuMaxBurst, |b: u64| decimal(b as int));
        lemma_optional_untouched(c.uclamp_min, CgroupFile::CpuUclampMin, |u: Resource<UclampValue>| uclamp_resource_text(u), CgroupFile::CpuIdle);
        lemma_untouched_concat(p3, optional_write(c.uclamp_min, CgroupFile::CpuUclampMin, |u: Resource<UclampValue>| uclamp_resource_text(u)), CgroupFile::CpuIdle);
        let p4 = p3 + optional_write(c.uclamp_min, CgroupFile::CpuUclampMin, |u: Resource<UclampValue>| uclamp_resource_text(u));
        lemma_optional_untouched(c.uclamp_max, CgroupFile::CpuUclampMax, |u: Resource<UclampValue>| uclamp_resource_text(u), CgroupFile::CpuIdle);
        lemma_untouched_concat(p4, optional_write(c.uclamp_max, CgroupFile::CpuUclampMax, |u: Resource<UclampValue>| uclamp_resource_text(u)), CgroupFile::CpuIdle);
        let p5 = p4 + optional_write(c.uclamp_max, CgroupFile::CpuUclampMax, |u: Resource<UclampValue>| uclamp_resource_text(u));
        lemma_setting_at(p5, c.is_idle, CgroupFile::CpuIdle, |b: bool| flag_text(b));
        let q6 = p5 + optional_write(c.is_idle, CgroupFile::CpuIdle, |b: bool| flag_text(b));
        assert(q6 == c.spec_writes());
    }
}

/// The hard weight of a cpu weight setting, if that is its kind.
pub open spec fn weight_value(c: CpuController) -> Option<u16> {
    match c.weight {
        Some(w) => w.spec_weight(),
        None => None,
    }
}

/// The nice value of a cpu weight setting, if that is its kind.
pub open spec fn nice_value(c: CpuController) -> Option<i8> {
    match c.weight {
        Some(w) => w.spec_nice(),
        None => None,
    }
}

/// A hard cpu weight goes to `cpu.weight` and a nice value to
/// `cpu.weight.nice`; the file of the other kind, and both when no weight is
/// set, are not written.
pub proof fn lemma_cpu_weight_own_files(c: CpuController)
    ensures
        setting_written(c.spec_writes(), weight_value(c), CgroupFile::CpuWeight, |v: u16| decimal(v as int)),
        setting_written(c.spec_writes(), nice_value(c), CgroupFile::CpuWeightNice, |n: i8| decimal(n as int)),
{
    reveal(CpuController::spec_writes);
    let seg = match c.weight {
        Some(w) => weight_write(w),
        None => Seq::empty(),
    };
    let ow1 = optional_write(weight_value(c), CgroupFile::CpuWeight, |v: u16| decimal(v as int));
    let ow2 = optional_write(nice_value(c), CgroupFile::CpuWeightNice, |n: i8| decimal(n as int));
    assert(ow1 + ow2 =~= seg);
    // weight
    {
        let p0 = (if c.subtree_control { one_write(CgroupFile::SubtreeControl, "+cpu".spec_bytes()) } else { Seq::empty() });
        lemma_subtree_untouched(c.subtree_control, "+cpu".spec_bytes(), CgroupFile::CpuWeight);
        lemma_setting_at(p0, weight_value(c), CgroupFile::CpuWeight, |v: u16| decimal(v as int));
        lemma_optional_untouched(nice_value(c), CgroupFile::CpuWeightNice, |n: i8| decimal(n as int), CgroupFile::CpuWeight);
        lemma_setting_extend(p0 + ow1, ow2, weight_value(c), CgroupFile::CpuWeight, |v: u16| decimal(v as int));
        assert(p0 + ow1 + ow2 =~= p0 + seg);
        lemma_optional_untouched(c.max, CgroupFile::CpuMax, |m: (Resource<u64>, u64)| cpu_max_text(m), CgroupFile::CpuWeight);
        lemma_setting_extend((p0 + seg), optional_write(c.max, CgroupFile::CpuMax, |m: (Resource<u64>, u64)| cpu_max_text(m)), weight_value(c), CgroupFile::CpuWeight, |v: u16| decimal(v as int));
        lemma_optional_untouched(c.max_burst, CgroupFile::CpuMaxBurst, |b: u64| decimal(b as int), CgroupFile::CpuWeight);
        lemma_setting_extend(((p0 + seg) + optional_write(c.max, CgroupFile::CpuMax, |m: (Resource<u64>, u64)| cpu_max_text(m))), optional_write(c.max_burst, CgroupFile::CpuMaxBurst, |b: u64| decimal(b as int)), weight_value(c), CgroupFile::CpuWeight, |v: u16| decimal(v as int));
        lemma_optional_untouched(c.uclamp_min, CgroupFile::CpuUclampMin, |u: Resource<UclampValue>| uclamp_resource_text(u), CgroupFile::CpuWeight);
        lemma_setting_extend((((p0 + seg) + optional_write(c.max, CgroupFile::CpuMax, |m: (Resource<u64>, u64)| cpu_max_text(m))) + optional_write(c.max_burst, CgroupFile::CpuMaxBurst, |b: u64| decimal(b as int))), optional_write(c.uclamp_min, CgroupFile::CpuUclampMin, |u: Resource<UclampValue>| uclamp_resource_text(u)), weight_value(c), CgroupFile::CpuWeight, |v: u16| decimal(v as int));
        lemma_optional_untouched(c.uclamp_max, CgroupFile::CpuUclampMax, |u: Resource<UclampValue>| uclamp_resource_text(u), CgroupFile::CpuWeight);
        lemma_setting_extend(((((p0 + seg) + optional_write(c.max, CgroupFile::CpuMax, |m: (Resource<u64>, u64)| cpu_max_text(m))) + optional_write(c.max_burst, CgroupFile::CpuMaxBurst, |b: u64| decimal(b as int))) + optional_write(c.uclamp_min, CgroupFile::CpuUclampMin, |u: Resource<UclampValue>| uclamp_resource_text(u))), optional_write(c.uclamp_max, CgroupFile::CpuUclampMax, |u: Resource<UclampValue>| uclamp_resource_text(u)), weight_value(c), CgroupFile::CpuWeight, |v: u16| decimal(v as int));
        lemma_optional_untouched(c.is_idle, CgroupFile::CpuIdle, |b: bool| flag_text(b), CgroupFile::CpuWeight);
        lemma_setting_extend((((((p0 + seg) + optional_write(c.max, CgroupFile::CpuMax, |m: (Resource<u64>, u64)| cpu_max_text(m))) + optional_write(c.max_burst, CgroupFile::CpuMaxBurst, |b: u64| decimal(b as int))) + optional_write(c.uclamp_min, CgroupFile::CpuUclampMin, |u: Resource<UclampValue>| uclamp_resource_text(u))) + optional_write(c.uclamp_max, CgroupFile::CpuUclampMax, |u: Resource<UclampValue>| uclamp_resource_text(u))), optional_write(c.is_idle, CgroupFile::CpuIdle, |b: bool| flag_text(b)), weight_value(c), CgroupFile::CpuWeight, |v: u16| decimal(v as int));
        assert(((((((p0 + seg) + optional_write(c.max, CgroupFile::CpuMax, |m: (Resource<u64>, u64)| cpu_max_text(m))) + optional_write(c.max_burst, CgroupFile::CpuMaxBurst, |b: u64| decimal(b as int))) + optional_write(c.uclamp_min, CgroupFile::CpuUclampMin, |u: Resource<UclampValue>| uclamp_resource_text(u))) + optional_write(c.uclamp_max, CgroupFile::CpuUclampMax, |u: Resource<UclampValue>| uclamp_resource_text(u))) + optional_write(c.is_idle, CgroupFile::CpuIdle, |b: bool| flag_text(b))) == c.spec_writes());
    }
    // nice
    {
        let p0 = (if c.subtree_control { one_write(CgroupFile::SubtreeControl, "+cpu".spec_bytes()) } else { Seq::empty() });
        lemma_subtree_untouched(c.subtree_control, "+cpu".spec_bytes(), CgroupFile::CpuWeightNice);
        lemma_optional_untouched(weight_value(c), CgroupFile::CpuWeight, |v: u16| decimal(v as int), CgroupFile::CpuWeightNice);
        lemma_untouched_concat(p0, ow1, CgroupFile::CpuWeightNice);
        lemma_setting_at(p0 + ow1, nice_value(c), CgroupFile::CpuWeightNice, |n: i8| decimal(n as int));
        assert(p0 + ow1 + ow2 =~= p0 + seg);
        lemma_optional_untouched(c.max, CgroupFile::CpuMax, |m: (Resource<u64>, u64)| cpu_max_text(m), CgroupFile::CpuWeightNice);
        lemma_setting_extend((p0 + seg), optional_write(c.max, CgroupFile::CpuMax, |m: (Resource<u64>, u64)| cpu_max_text(m)), nice_value(c), CgroupFile::CpuWeightNice, |n: i8| decimal(n as int));
        lemma_optional_untouched(c.max_burst, CgroupFile::CpuMaxBurst, |b: u64| decimal(b as int), CgroupFile::CpuWeightNice);
        lemma_setting_extend(((p0 + seg) + optional_write(c.max, CgroupFile::CpuMax, |m: (Resource<u64>, u64)| cpu_max_text(m))), optional_write(c.max_burst, CgroupFile::CpuMaxBurst, |b: u64| decimal(b as int)), nice_value(c), CgroupFile::CpuWeightNice, |n: i8| decimal(n as int));
        lemma_optional_untouched(c.uclamp_min, CgroupFile::CpuUclampMin, |u: Resource<UclampValue>| uclamp_resource_text(u), CgroupFile::CpuWeightNice);
        lemma_setting_extend((((p0 + seg) + optional_write(c.max, CgroupFile::CpuMax, |m: (Resource<u64>, u64)| cpu_max_text(m))) + optional_write(c.max_burst, CgroupFile::CpuMaxBurst, |b: u64| decimal(b as int))), optional_write(c.uclamp_min, CgroupFile::CpuUclampMin, |u: Resource<UclampValue>| uclamp_resource_text(u)), nice_value(c), CgroupFile::CpuWeightNice, |n: i8| decimal(n as int));
        lemma_optional_untouched(c.uclamp_max, CgroupFile::CpuUclampMax, |u: Resource<UclampValue>| uclamp_resource_text(u), CgroupFile::CpuWeightNice);
        lemma_setting_extend(((((p0 + seg) + optional_write(c.max, CgroupFile::CpuMax, |m: (Resource<u64>, u64)| cpu_max_text(m))) + optional_write(c.max_burst, CgroupFile::CpuMaxBurst, |b: u64| decimal(b as int))) + optional_write(c.uclamp_min, CgroupFile::CpuUclampMin, |u: Resource<UclampValue>| uclamp_resource_text(u))), optional_write(c.uclamp_max, CgroupFile::CpuUclampMax, |u: Resource<UclampValue>| uclamp_resource_text(u)), nice_value(c), CgroupFile::CpuWeightNice, |n: i8| decimal(n as int));
        lemma_optional_untouched(c.is_idle, CgroupFile::CpuIdle, |b: bool| flag_text(b), CgroupFile::CpuWeightNice);
        lemma_setting_extend((((((p0 + seg) + optional_write(c.max, CgroupFile::CpuMax, |m: (Resource<u64>, u64)| cpu_max_text(m))) + optional_write(c.max_burst, CgroupFile::CpuMaxBurst, |b: u64| decimal(b as int))) + optional_write(c.uclamp_min, CgroupFile::CpuUclampMin, |u: Resource<UclampValue>| uclamp_resource_text(u))) + optional_write(c.uclamp_max, CgroupFile::CpuUclampMax, |u: Resource<UclampValue>| uclamp_resource_text(u))), optional_write(c.is_idle, CgroupFile::CpuIdle, |b: bool| flag_text(b)), nice_value(c), CgroupFile::CpuWeightNice, |n: i8| decimal(n as int));
        assert(((((((p0 + seg) + optional_write(c.max, CgroupFile::CpuMax, |m: (Resource<u64>, u64)| cpu_max_text(m))) + optional_write(c.max_burst, CgroupFile::CpuMaxBurst, |b: u64| decimal(b as int))) + optional_write(c.uclamp_min, CgroupFile::CpuUclampMin, |u: Resource<UclampValue>| uclamp_resource_text(u))) + optional_write(c.uclamp_max, CgroupFile::CpuUclampMax, |u: Resource<UclampValue>| uclamp_resource_text(u))) + optional_write(c.is_idle, CgroupFile::CpuIdle, |b: bool| flag_text(b))) == c.spec_writes());
    }
}

/// The two switches of the memory controller go to their own interface
/// files: `is_indivisible` to `memory.oom.group` and
/// `disable_zswap_writeback`, inverted, to `memory.zswap.writeback`; an
/// unset switch writes nothing to its file.
pub proof fn lemma_memory_switches_own_files(c: MemoryController)
    ensures
        setting_written(c.spec_writes(), c.is_indivisible, CgroupFile::MemoryOomGroup, |b: bool| flag_text(b)),
        setting_written(c.spec_writes(), c.disable_zswap_writeback, CgroupFile::MemoryZswapWriteback, |b: bool| flag_text(!b)),
{
    reveal(MemoryController::spec_writes);
    // `is_indivisible`
    {
        let p0 = (if c.subtree_control { one_write(CgroupFile::SubtreeControl, "+memory".spec_bytes()) } else { Seq::empty() });
        lemma_subtree_untouched(c.subtree_control, "+memory".spec_bytes(), CgroupFile::MemoryOomGroup);
        lemma_optional_untouched(c.min, CgroupFile::MemoryMin, |r: Resource<u64>| resource_text(r), CgroupFile::MemoryOomGroup);
        lemma_untouched_concat(p0, resource_write(c.min, CgroupFile::MemoryMin), CgroupFile::MemoryOomGroup);
        let p1 = p0 + resource_write(c.min, CgroupFile::MemoryMin);
        lemma_optional_untouched(c.low, CgroupFile::MemoryLow, |r: Resource<u64>| resource_text(r), CgroupFile::MemoryOomGroup);
        lemma_untouched_concat(p1, resource_write(c.low, CgroupFile::MemoryLow), CgroupFile::MemoryOomGroup);
        let p2 = p1 + resource_write(c.low, CgroupFile::MemoryLow);
        lemma_optional_untouched(c.high, CgroupFile::MemoryHigh, |r: Resource<u64>| resource_text(r), CgroupFile::MemoryOomGroup);
        lemma_untouched_concat(p2, resource_write(c.high, CgroupFile::MemoryHigh), CgroupFile::MemoryOomGroup);
        let p3 = p2 + resource_write(c.high, CgroupFile::MemoryHigh);
        lemma_optional_untouched(c.max, CgroupFile::MemoryMax, |r: Resource<u64>| resource_text(r), CgroupFile::MemoryOomGroup);
        lemma_untouched_concat(p3, resource_write(c.max, CgroupFile::MemoryMax), CgroupFile::MemoryOomGroup);
        let p4 = p3 + resource_write(c.max, CgroupFile::MemoryMax);
        lemma_setting_at(p4, c.is_indivisible, CgroupFile::MemoryOomGroup, |b: bool| flag_text(b));
        let q5 = p4 + flag_write(c.is_indivisible, CgroupFile::MemoryOomGroup);
        lemma_optional_untouched(c.swap_high, CgroupFile::MemorySwapHigh, |r: Resource<u64>| resource_text(r), CgroupFile::MemoryOomGroup);
        lemma_setting_extend(q5, resource_write(c.swap_high, CgroupFile::MemorySwapHigh), c.is_indivisible, CgroupFile::MemoryOomGroup, |b: bool| flag_text(b));
        let q6 = q5 + resource_write(c.swap_high, CgroupFile::MemorySwapHigh);
        lemma_optional_untouched(c.swap_max, CgroupFile::MemorySwapMax, |r: Resource<u64>| resource_text(r), CgroupFile::MemoryOomGroup);
        lemma_setting_extend(q6, resource_write(c.swap_max, CgroupFile::MemorySwapMax), c.is_indivisible, CgroupFile::MemoryOomGroup, |b: bool| flag_text(b));
        let q7 = q6 + resource_write(c.swap_max, CgroupFile::MemorySwapMax);
        lemma_optional_untouched(c.zswap_max, CgroupFile::MemoryZswapMax, |r: Resource<u64>| resource_text(r), CgroupFile::MemoryOomGroup);
        lemma_setting_extend(q7, resource_write(c.zswap_max, CgroupFile::MemoryZswapMax), c.is_indivisible, CgroupFile::MemoryOomGroup, |b: bool| flag_text(b));
        let q8 = q7 + resource_write(c.zswap_max, CgroupFile::MemoryZswapMax);
        lemma_optional_untouched(c.disable_zswap_writeback, CgroupFile::MemoryZswapWriteback, |b: bool| flag_text(!b), CgroupFile::MemoryOomGroup);
        lemma_setting_extend(q8, optional_write(c.disable_zswap_writeback, CgroupFile::MemoryZswapWriteback, |b: bool| flag_text(!b)), c.is_indivisible, CgroupFile::MemoryOomGroup, |b: bool| flag_text(b));
        let q9 = q8 + optional_write(c.disable_zswap_writeback, CgroupFile::MemoryZswapWriteback, |b: bool| flag_text(!b));
        assert(q9 == c.spec_writes());
    }
    // `disable_zswap_writeback`
    {
        let p0 = (if c.subtree_control { one_write(CgroupFile::SubtreeControl, "+memory".spec_bytes()) } else { Seq::empty() });
        lemma_subtree_untouched(c.subtree_control, "+memory".spec_bytes(), CgroupFile::MemoryZswapWriteback);
        lemma_optional_untouched(c.min, CgroupFile::MemoryMin, |r: Resource<u64>| resource_text(r), CgroupFile::MemoryZswapWriteback);
        lemma_untouched_concat(p0, resource_write(c.min, CgroupFile::MemoryMin), CgroupFile::MemoryZswapWriteback);
        let p1 = p0 + resource_write(c.min, CgroupFile::MemoryMin);
        lemma_optional_untouched(c.low, CgroupFile::MemoryLow, |r: Resource<u64>| resource_text(r), CgroupFile::MemoryZswapWriteback);
        lemma_untouched_concat(p1, resource_write(c.low, CgroupFile::MemoryLow), CgroupFile::MemoryZswapWriteback);
        let p2 = p1 + resource_write(c.low, CgroupFile::MemoryLow);
        lemma_optional_untouched(c.high, CgroupFile::MemoryHigh, |r: Resource<u64>| resource_text(r), CgroupFile::MemoryZswapWriteback);
        lemma_untouched_concat(p2, resource_write(c.high, CgroupFile::MemoryHigh), CgroupFile::MemoryZswapWriteback);
        let p3 = p2 + resource_write(c.high, CgroupFile::MemoryHigh);
        lemma_optional_untouched(c.max, CgroupFile::MemoryMax, |r: Resource<u64>| resource_text(r), CgroupFile::MemoryZswapWriteback);
        lemma_untouched_concat(p3, resource_write(c.max, CgroupFile::MemoryMax), CgroupFile::MemoryZswapWriteback);
        let p4 = p3 + resource_write(c.max, CgroupFile::MemoryMax);
        lemma_optional_untouched(c.is_indivisible, CgroupFile::MemoryOomGroup, |b: bool| flag_text(b), CgroupFile::MemoryZswapWriteback);
        lemma_untouched_concat(p4, flag_write(c.is_indivisible, CgroupFile::MemoryOomGroup), CgroupFile::MemoryZswapWriteback);
        let p5 = p4 + flag_write(c.is_indivisible, CgroupFile::MemoryOomGroup);
        lemma_optional_untouched(c.swap_high, CgroupFile::MemorySwapHigh, |r: Resource<u64>| resource_text(r), CgroupFile::MemoryZswapWriteback);
        lemma_untouched_concat(p5, resource_write(c.swap_high, CgroupFile::MemorySwapHigh), CgroupFile::MemoryZswapWriteback);
        let p6 = p5 + resource_write(c.swap_high, CgroupFile::MemorySwapHigh);
        lemma_optional_untouched(c.swap_max, CgroupFile::MemorySwapMax, |r: Resource<u64>| resource_text(r), CgroupFile::MemoryZswapWriteback);
        lemma_untouched_concat(p6, resource_write(c.swap_max, CgroupFile::MemorySwapMax), CgroupFile::MemoryZswapWriteback);
        let p7 = p6 + resource_write(c.swap_max, CgroupFile::MemorySwapMax);
        lemma_optional_untouched(c.zswap_max, CgroupFile::MemoryZswapMax, |r: Resource<u64>| resource_text(r), CgroupFile::MemoryZswapWriteback);
        lemma_untouched_concat(p7, resource_write(c.zswap_max, CgroupFile::MemoryZswapMax), CgroupFile::MemoryZswapWriteback);
        let p8 = p7 + resource_write(c.zswap_max, CgroupFile::MemoryZswapMax);
        lemma_setting_at(p8, c.disable_zswap_writeback, CgroupFile::MemoryZswapWriteback, |b: bool| flag_text(!b));
        let q9 = p8 + optional_write(c.disable_zswap_writeback, CgroupFile::MemoryZswapWriteback, |b: bool| flag_text(!b));
        assert(q9 == c.spec_writes());
    }
}

/// The process limit goes to `pids.max`, and nothing is written there when
/// it is unset.
pub proof fn lemma_pids_max_own_file(c: PidsController)
    ensures
        setting_written(c.spec_writes(), c.max, CgroupFile::PidsMax, |r: Resource<u64>| resource_text(r)),
{
    reveal(PidsController::spec_writes);
    // `max`
    {
        let p0 = (if c.subtree_control { one_write(CgroupFile::SubtreeControl, "+pids".spec_bytes()) } else { Seq::empty() });
        lemma_subtree_untouched(c.subtree_control, "+pids".spec_bytes(), CgroupFile::PidsMax);
        lemma_setting_at(p0, c.max, CgroupFile::PidsMax, |r: Resource<u64>| resource_text(r));
        let q1 = p0 + resource_write(c.max, CgroupFile::PidsMax);
        assert(q1 == c.spec_writes());
    }
}

/// Whether a plan writes `line` to `cgroup.subtree_control` when `enabled`,
/// and nothing to that file otherwise; it writes nothing else there either
/// way.
pub open spec fn subtree_line_written(w: Seq<(CgroupFile, Seq<u8>)>, enabled: bool, line: Seq<u8>) -> bool {
    &&& w.contains((CgroupFile::SubtreeControl, line)) <==> enabled
    &&& forall|t: Seq<u8>| t != line ==> !w.contains((CgroupFile::SubtreeControl, t))
}

proof fn lemma_line_at_subtree(enabled: bool, line: Seq<u8>)
    ensures
        subtree_line_written(
            if enabled {
                one_write(CgroupFile::SubtreeControl, line)
            } else {
                Seq::empty()
            },
            enabled,
            line,
        ),
{
    broadcast use vstd::seq_lib::lemma_seq_contains;
    broadcast use vstd::seq_lib::lemma_seq_empty_contains_nothing;

    if enabled {
        assert(one_write(CgroupFile::SubtreeControl, line)[0] == (CgroupFile::SubtreeControl, line));
    }
}

proof fn lemma_line_extend(a: Seq<(CgroupFile, Seq<u8>)>, b: Seq<(CgroupFile, Seq<u8>)>, enabled: bool, line: Seq<u8>)
    requires
        subtree_line_written(a, enabled, line),
        untouched(b, CgroupFile::SubtreeControl),
    ensures
        subtree_line_written(a + b, enabled, line),
{
    broadcast use vstd::seq_lib::lemma_seq_concat_contains_all_elements;

}

/// The cpu controller is given to the subtree, by writing `+cpu` to
/// `cgroup.subtree_control`, exactly when asked, and nothing else is written
/// to that file.
pub proof fn lemma_cpu_subtree_control(c: CpuController)
    ensures
        subtree_line_written(c.spec_writes(), c.subtree_control, "+cpu".spec_bytes()),
{
    reveal(CpuController::spec_writes);
    let p0 = (if c.subtree_control { one_write(CgroupFile::SubtreeControl, "+cpu".spec_bytes()) } else { Seq::empty() });
    lemma_line_at_subtree(c.subtree_control, "+cpu".spec_bytes());
    lemma_weight_untouched(c.weight, CgroupFile::SubtreeControl);
    lemma_line_extend(p0, (match c.weight { Some(w) => weight_write(w), None => Seq::empty() }), c.subtree_control, "+cpu".spec_bytes());
    lemma_optional_untouched(c.max, CgroupFile::CpuMax, |m: (Resource<u64>, u64)| cpu_max_text(m), CgroupFile::SubtreeControl);
    lemma_line_extend((p0 + (match c.weight { Some(w) => weight_write(w), None => Seq::empty() })), optional_write(c.max, CgroupFile::CpuMax, |m: (Resource<u64>, u64)| cpu_max_text(m)), c.subtree_control, "+cpu".spec_bytes());
    lemma_optional_untouched(c.max_burst, CgroupFile::CpuMaxBurst, |b: u64| decimal(b as int), CgroupFile::SubtreeControl);
    lemma_line_extend(((p0 + (match c.weight { Some(w) => weight_write(w), None => Seq::empty() })) + optional_write(c.max, CgroupFile::CpuMax, |m: (Resource<u64>, u64)| cpu_max_text(m))), optional_write(c.max_burst, CgroupFile::CpuMaxBurst, |b: u64| decimal(b as int)), c.subtree_control, "+cpu".spec_bytes());
    lemma_optional_untouched(c.uclamp_min, CgroupFile::CpuUclampMin, |u: Resource<UclampValue>| uclamp_resource_text(u), CgroupFile::SubtreeControl);
    lemma_line_extend((((p0 + (match c.weight { Some(w) => weight_write(w), None => Seq::empty() })) + optional_write(c.max, CgroupFile::CpuMax, |m: (Resource<u64>, u64)| cpu_max_text(m))) + optional_write(c.max_burst, CgroupFile::CpuMaxBurst, |b: u64| decimal(b as int))), optional_write(c.uclamp_min, CgroupFile::CpuUclampMin, |u: Resource<UclampValue>| uclamp_resource_text(u)), c.subtree_control, "+cpu".spec_bytes());
    lemma_optional_untouched(c.uclamp_max, CgroupFile::CpuUclampMax, |u: Resource<UclampValue>| uclamp_resource_text(u), CgroupFile::SubtreeControl);
    lemma_line_extend(((((p0 + (match c.weight { Some(w) => weight_write(w), None => Seq::empty() })) + optional_write(c.max, CgroupFile::CpuMax, |m: (Resource<u64>, u64)| cpu_max_text(m))) + optional_write(c.max_burst, CgroupFile::CpuMaxBurst, |b: u64| decimal(b as int))) + optional_write(c.uclamp_min, CgroupFile::CpuUclampMin, |u: Resource<UclampValue>| uclamp_resource_text(u))), optional_write(c.uclamp_max, CgroupFile::CpuUclampMax, |u: Resource<UclampValue>| uclamp_resource_text(u)), c.subtree_control, "+cpu".spec_bytes());
    lemma_optional_untouched(c.is_idle, CgroupFile::CpuIdle, |b: bool| flag_text(b), CgroupFile::SubtreeControl);
    lemma_line_extend((((((p0 + (match c.weight { Some(w) => weight_write(w), None => Seq::empty() })) + optional_write(c.max, CgroupFile::CpuMax, |m: (Resource<u64>, u64)| cpu_max_text(m))) + optional_write(c.max_burst, CgroupFile::CpuMaxBurst, |b: u64| decimal(b as int))) + optional_write(c.uclamp_min, CgroupFile::CpuUclampMin, |u: Resource<UclampValue>| uclamp_resource_text(u))) + optional_write(c.uclamp_max, CgroupFile::CpuUclampMax, |u: Resource<UclampValue>| uclamp_resource_text(u))), optional_write(c.is_idle, CgroupFile::CpuIdle, |b: bool| flag_text(b)), c.subtree_control, "+cpu".spec_bytes());
    assert(((((((p0 + (match c.weight { Some(w) => weight_write(w), None => Seq::empty() })) + optional_write(c.max, CgroupFile::CpuMax, |m: (Resource<u64>, u64)| cpu_max_text(m))) + optional_write(c.max_burst, CgroupFile::CpuMaxBurst, |b: u64| decimal(b as int))) + optional_write(c.uclamp_min, CgroupFile::CpuUclampMin, |u: Resource<UclampValue>| uclamp_resource_text(u))) + optional_write(c.uclamp_max, CgroupFile::CpuUclampMax, |u: Resource<UclampValue>| uclamp_resource_text(u))) + optional_write(c.is_idle, CgroupFile::CpuIdle, |b: bool| flag_text(b))) == c.spec_writes());
}

/// The memory controller is given to the subtree, by writing `+memory` to
/// `cgroup.subtree_control`, exactly when asked, and nothing else is written
/// to that file.
pub proof fn lemma_memory_subtree_control(c: MemoryController)
    ensures
        subtree_line_written(c.spec_writes(), c.subtree_control, "+memory".spec_bytes()),
{
    reveal(MemoryController::spec_writes);
    let p0 = (if c.subtree_control { one_write(CgroupFile::SubtreeControl, "+memory".spec_bytes()) } else { Seq::empty() });
    lemma_line_at_subtree(c.subtree_control, "+memory".spec_bytes());
    lemma_optional_untouched(c.min, CgroupFile::MemoryMin, |r: Resource<u64>| resource_text(r), CgroupFile::SubtreeControl);
    lemma_line_extend(p0, resource_write(c.min, CgroupFile::MemoryMin), c.subtree_control, "+memory".spec_bytes());
    lemma_optional_untouched(c.low, CgroupFile::MemoryLow, |r: Resource<u64>| resource_text(r), CgroupFile::SubtreeControl);
    lemma_line_extend((p0 + resource_write(c.min, CgroupFile::MemoryMin)), resource_write(c.low, CgroupFile::MemoryLow), c.subtree_control, "+memory".spec_bytes());
    lemma_optional_untouched(c.high, CgroupFile::MemoryHigh, |r: Resource<u64>| resource_text(r), CgroupFile::SubtreeControl);
    lemma_line_extend(((p0 + resource_write(c.min, CgroupFile::MemoryMin)) + resource_write(c.low, CgroupFile::MemoryLow)), resource_write(c.high, CgroupFile::MemoryHigh), c.subtree_control, "+memory".spec_bytes());
    lemma_optional_untouched(c.max, CgroupFile::MemoryMax, |r: Resource<u64>| resource_text(r), CgroupFile::SubtreeControl);
    lemma_line_extend((((p0 + resource_write(c.min, CgroupFile::MemoryMin)) + resource_write(c.low, CgroupFile::MemoryLow)) + resource_write(c.high, CgroupFile::MemoryHigh)), resource_write(c.max, CgroupFile::MemoryMax), c.subtree_control, "+memory".spec_bytes());
    lemma_optional_untouched(c.is_indivisible, CgroupFile::MemoryOomGroup, |b: bool| flag_text(b), CgroupFile::SubtreeControl);
    lemma_line_extend(((((p0 + resource_write(c.min, CgroupFile::MemoryMin)) + resource_write(c.low, CgroupFile::MemoryLow)) + resource_write(c.high, CgroupFile::MemoryHigh)) + resource_write(c.max, CgroupFile::MemoryMax)), flag_write(c.is_indivisible, CgroupFile::MemoryOomGroup), c.subtree_control, "+memory".spec_bytes());
    lemma_optional_untouched(c.swap_high, CgroupFile::MemorySwapHigh, |r: Resource<u64>| resource_text(r), CgroupFile::SubtreeControl);
    lemma_line_extend((((((p0 + resource_write(c.min, CgroupFile::MemoryMin)) + resource_write(c.low, CgroupFile::MemoryLow)) + resource_write(c.high, CgroupFile::MemoryHigh)) + resource_write(c.max, CgroupFile::MemoryMax)) + flag_write(c.is_indivisible, CgroupFile::MemoryOomGroup)), resource_write(c.swap_high, CgroupFile::MemorySwapHigh), c.subtree_control, "+memory".spec_bytes());
    lemma_optional_untouched(c.swap_max, CgroupFile::MemorySwapMax, |r: Resource<u64>| resource_text(r), CgroupFile::SubtreeControl);
    lemma_line_extend(((((((p0 + resource_write(c.min, CgroupFile::MemoryMin)) + resource_write(c.low, CgroupFile::MemoryLow)) + resource_write(c.high, CgroupFile::MemoryHigh)) + resource_write(c.max, CgroupFile::MemoryMax)) + flag_write(c.is_indivisible, CgroupFile::MemoryOomGroup)) + resource_write(c.swap_high, CgroupFile::MemorySwapHigh)), resource_write(c.swap_max, CgroupFile::MemorySwapMax), c.subtree_control, "+memory".spec_bytes());
    lemma_optional_untouched(c.zswap_max, CgroupFile::MemoryZswapMax, |r: Resource<u64>| resource_text(r), CgroupFile::SubtreeControl);
    lemma_line_extend((((((((p0 + resource_write(c.min, CgroupFile::MemoryMin)) + resource_write(c.low, CgroupFile::MemoryLow)) + resource_write(c.high, CgroupFile::MemoryHigh)) + resource_write(c.max, CgroupFile::MemoryMax)) + flag_write(c.is_indivisible, CgroupFile::MemoryOomGroup)) + resource_write(c.swap_high, CgroupFile::MemorySwapHigh)) + resource_write(c.swap_max, CgroupFile::MemorySwapMax)), resource_write(c.zswap_max, CgroupFile::MemoryZswapMax), c.subtree_control, "+memory".spec_bytes());
    lemma_optional_untouched(c.disable_zswap_writeback, CgroupFile::MemoryZswapWriteback, |b: bool| flag_text(!b), CgroupFile::SubtreeControl);
    lemma_line_extend(((((((((p0 + resource_write(c.min, CgroupFile::MemoryMin)) + resource_write(c.low, CgroupFile::MemoryLow)) + resource_write(c.high, CgroupFile::MemoryHigh)) + resource_write(c.max, CgroupFile::MemoryMax)) + flag_write(c.is_indivisible, CgroupFile::MemoryOomGroup)) + resource_write(c.swap_high, CgroupFile::MemorySwapHigh)) + resource_write(c.swap_max, CgroupFile::MemorySwapMax)) + resource_write(c.zswap_max, CgroupFile::MemoryZswapMax)), optional_write(c.disable_zswap_writeback, CgroupFile::MemoryZswapWriteback, |b: bool| flag_text(!b)), c.subtree_control, "+memory".spec_bytes());
    assert((((((((((p0 + resource_write(c.min, CgroupFile::MemoryMin)) + resource_write(c.low, CgroupFile::MemoryLow)) + resource_write(c.high, CgroupFile::MemoryHigh)) + resource_write(c.max, CgroupFile::MemoryMax)) + flag_write(c.is_indivisible, CgroupFile::MemoryOomGroup)) + resource_write(c.swap_high, CgroupFile::MemorySwapHigh)) + resource_write(c.swap_max, CgroupFile::MemorySwapMax)) + resource_write(c.zswap_max, CgroupFile::MemoryZswapMax)) + optional_write(c.disable_zswap_writeback, CgroupFile::MemoryZswapWriteback, |b: bool| flag_text(!b))) == c.spec_writes());
}

/// The pids controller is given to the subtree, by writing `+pids` to
/// `cgroup.subtree_control`, exactly when asked, and nothing else is written
/// to that file.
pub proof fn lemma_pids_subtree_control(c: PidsController)
    ensures
        subtree_line_written(c.spec_writes(), c.subtree_control, "+pids".spec_bytes()),
{
    reveal(PidsController::spec_writes);
    let p0 = (if c.subtree_control { one_write(CgroupFile::SubtreeControl, "+pids".spec_bytes()) } else { Seq::empty() });
    lemma_line_at_subtree(c.subtree_control, "+pids".spec_bytes());
    lemma_optional_untouched(c.max, CgroupFile::PidsMax, |r: Resource<u64>| resource_text(r), CgroupFile::SubtreeControl);
    lemma_line_extend(p0, resource_write(c.max, CgroupFile::PidsMax), c.subtree_control, "+pids".spec_bytes());
    assert((p0 + resource_write(c.max, CgroupFile::PidsMax)) == c.spec_writes());
}

/// The io controller is given to the subtree, by writing `+io` to
/// `cgroup.subtree_control`, exactly when asked, and nothing else is written
/// to that file.
pub proof fn lemma_io_subtree_control(c: IoController)
    ensures
        subtree_line_written(c.spec_writes(), c.subtree_control, "+io".spec_bytes()),
{
    reveal(IoController::spec_writes);
    let p0 = (if c.subtree_control { one_write(CgroupFile::SubtreeControl, "+io".spec_bytes()) } else { Seq::empty() });
    lemma_line_at_subtree(c.subtree_control, "+io".spec_bytes());
    assert(p0 == c.spec_writes());
}

/// Controllers available to a cgroup.
#[derive(PartialEq, Eq, Structural, Copy, Clone, Debug)]
pub struct CgroupControllers {
    /// `cpu` controller.
    pub cpu: bool,
    /// `memory` controller.
    pub memory: bool,
    /// `io` controller.
    pub io: bool,
    /// `pids` controller.
    pub pids: bool,
}

/// Whether a byte separates words: ASCII space, tab, line feed, vertical
/// tab, form feed or carriage return.
pub open spec fn is_space(b: u8) -> bool {
    b == 32 || (9 <= b && b <= 13)
}

/// Whether `word` occurs in `text` at `start` as a whole whitespace-separated
/// word.
pub open spec fn word_at(text: Seq<u8>, word: Seq<u8>, start: int) -> bool {
    &&& 0 <= start
    &&& start + word.len() <= text.len()
    &&& text.subrange(start, start + word.len()) == word
    &&& (start == 0 || is_space(text[start - 1]))
    &&& (start + word.len() == text.len() || is_space(text[start + word.len()]))
}

/// Whether `word` is one of the whitespace-separated words of `text`.
pub open spec fn has_word(text: Seq<u8>, word: Seq<u8>) -> bool {
    exists|start: int| #[trigger] word_at(text, word, start)
}

/// Whether `word` occurs at `start` as a whole word.
fn check_word_at(text: &[u8], word: &[u8], start: usize) -> (r: bool)
    requires
        start + word@.len() <= text@.len(),
    ensures
        r == word_at(text@, word@, start as int),
{
    let text_len = text.len();
    let end = start + word.len();
    assert(end <= text_len);
    if start > 0 && !(text[start - 1] == 32 || (9 <= text[start - 1] && text[start - 1] <= 13)) {
        return false;
    }
    if end < text.len() && !(text[end] == 32 || (9 <= text[end] && text[end] <= 13)) {
        return false;
    }
    let mut i: usize = 0;
    while i < word.len()
        invariant
            end == start + word@.len(),
            end <= text@.len(),
            i <= word@.len(),
            forall|j: int| 0 <= j < i ==> text@[start + j] == word@[j],
        decreases word@.len() - i,
    {
        if text[start + i] != word[i] {
            assert(text@.subrange(start as int, end as int)[i as int] != word@[i as int]);
            return false;
        }
        i = i + 1;
    }
    assert(text@.subrange(start as int, end as int) =~= word@);
    true
}

/// Whether `word` is one of the whitespace-separated words of `text`.
pub fn find_word(text: &[u8], word: &[u8]) -> (found: bool)
    ensures
        found == has_word(text@, word@),
{
    if word.len() > text.len() {
        assert forall|start: int| !word_at(text@, word@, start) by {}
        return false;
    }
    let last = text.len() - word.len();
    let mut start: usize = 0;
    loop
        invariant
            last + word@.len() == text@.len(),
            start <= last,
            forall|k: int| 0 <= k < start ==> !word_at(text@, word@, k),
        decreases last - start,
    {
        if check_word_at(text, word, start) {
            return true;
        }
        if start == last {
            assert forall|k: int| !word_at(text@, word@, k) by {
                if 0 <= k && k < start {
                }
            }
            return false;
        }
        start = start + 1;
    }
}

/// Reads the contents of `cgroup.controllers`: which of the controllers
/// this policy knows occur as words of the text.
pub fn parse_controllers_text(text: &[u8]) -> (c: CgroupControllers)
    ensures
        c.cpu == has_word(text@, "cpu".spec_bytes()),
        c.memory == has_word(text@, "memory".spec_bytes()),
        c.io == has_word(text@, "io".spec_bytes()),
        c.pids == has_word(text@, "pids".spec_bytes()),
{
    let cpu = literal("cpu");
    let memory = literal("memory");
    let io = literal("io");
    let pids = literal("pids");
    CgroupControllers {
        cpu: find_word(text, cpu.as_slice()),
        memory: find_word(text, memory.as_slice()),
        io: find_word(text, io.as_slice()),
        pids: find_word(text, pids.as_slice()),
    }
}

/// Policy applied to a cgroup.
///
/// The policy is not validated prior to it being instantiated. Callers are
/// responsible for ensuring that the final policy is valid and handling any
/// instantiation errors.
#[derive(Copy, Clone, Debug)]
pub struct Policy {
    /// Core configuration options.
    pub cgroup: CgroupProperties,
    /// Configuration under the `cpu` controller.
    pub cpu: Option<CpuController>,
    /// Configuration under the `memory` controller.
    pub memory: Option<MemoryController>,
    /// Configuration under the `io` controller.
    pub io: Option<IoController>,
    /// Configuration under the `pids` controller.
    pub pids: Option<PidsController>,
}

/// The default cgroup properties.
pub open spec fn default_properties() -> CgroupProperties {
    CgroupProperties { is_threaded: false, enable_psi_accounting: None }
}

impl Default for Policy {
    fn default() -> (r: Self)
        ensures
            r == (Policy {
                cgroup: default_properties(),
                cpu: None,
                memory: None,
                io: None,
                pids: None,
            }),
    {
        Policy { cgroup: CgroupProperties::default(), cpu: None, memory: None, io: None, pids: None }
    }
}

/// One controller's stage of a plan: nothing when the controller is not
/// enabled, the missing-controller error when it is enabled but not
/// available, and otherwise its writes followed by the later stages.
pub open spec fn controller_stage(
    enabled: bool,
    writes: Seq<(CgroupFile, Seq<u8>)>,
    controller: Controller,
    available: bool,
    rest: (Seq<(CgroupFile, Seq<u8>)>, Result<(), Host>),
) -> (Seq<(CgroupFile, Seq<u8>)>, Result<(), Host>) {
    if !enabled {
        rest
    } else if !available {
        (Seq::empty(), Err(Host::MissingCgroupController(controller)))
    } else {
        (writes + rest.0, rest.1)
    }
}

/// Whether the policy configures a controller that the cgroup does not
/// offer.
pub open spec fn configured_but_missing(policy: Policy, available: CgroupControllers, c: Controller) -> bool {
    match c {
        Controller::Cpu => policy.cpu is Some && !available.cpu,
        Controller::Memory => policy.memory is Some && !available.memory,
        Controller::Io => policy.io is Some && !available.io,
        Controller::Pids => policy.pids is Some && !available.pids,
    }
}

/// Whether an outcome is success, or the failure of a configured controller
/// that the cgroup does not offer.
pub open spec fn names_missing(policy: Policy, available: CgroupControllers, r: Result<(), Host>) -> bool {
    match r {
        Ok(()) => true,
        Err(Host::MissingCgroupController(c)) => configured_but_missing(policy, available, c),
        Err(_) => false,
    }
}

/// Applying the controllers succeeds exactly when every controller the
/// policy configures is offered by the cgroup; otherwise it fails naming a
/// configured controller that is missing, the first in the order cpu,
/// memory, io, pids.
pub proof fn lemma_controller_plan_outcome(policy: Policy, available: CgroupControllers)
    ensures
        policy.spec_controller_plan(available).1 is Ok <==> (!configured_but_missing(
            policy,
            available,
            Controller::Cpu,
        ) && !configured_but_missing(policy, available, Controller::Memory)
            && !configured_but_missing(policy, available, Controller::Io) && !configured_but_missing(
            policy,
            available,
            Controller::Pids,
        )),
        names_missing(policy, available, policy.spec_controller_plan(available).1),
        configured_but_missing(policy, available, Controller::Cpu) ==> policy.spec_controller_plan(
            available,
        ).1 == Err::<(), Host>(Host::MissingCgroupController(Controller::Cpu)),
{
}

impl Policy {
    /// Modify the configuration of the entire cgroup.
    pub fn cgroup(self, configure: impl FnOnce(CgroupProperties) -> CgroupProperties) -> (r: Self)
        requires
            call_requires(configure, (self.cgroup,)),
        ensures
            call_ensures(configure, (self.cgroup,), r.cgroup),
            r == (Policy { cgroup: r.cgroup, ..self }),
    {
        Policy { cgroup: configure(self.cgroup), ..self }
    }

    /// Enable and modify the configuration of the cpu controller; an enabled
    /// controller keeps its configuration as the starting point.
    pub fn cpu(self, configure: impl FnOnce(CpuController) -> CpuController) -> (r: Self)
        requires
            call_requires(configure, (self.cpu.unwrap_or(default_cpu()),)),
        ensures
            r.cpu matches Some(c) && call_ensures(configure, (self.cpu.unwrap_or(default_cpu()),), c),
            r == (Policy { cpu: r.cpu, ..self }),
    {
        let current = match self.cpu {
            Some(c) => c,
            None => CpuController::default(),
        };
        Policy { cpu: Some(configure(current)), ..self }
    }

    /// Disable the cpu controller and erase any configuration it may have.
    pub fn disable_cpu(self) -> (r: Self)
        ensures
            r == (Policy { cpu: None, ..self }),
    {
        Policy { cpu: None, ..self }
    }

    /// Enable and modify the configuration of the memory controller.
    pub fn memory(self, configure: impl FnOnce(MemoryController) -> MemoryController) -> (r: Self)
        requires
            call_requires(configure, (self.memory.unwrap_or(default_memory()),)),
        ensures
            r.memory matches Some(c) && call_ensures(
                configure,
                (self.memory.unwrap_or(default_memory()),),
                c,
            ),
            r == (Policy { memory: r.memory, ..self }),
    {
        let current = match self.memory {
            Some(c) => c,
            None => MemoryController::default(),
        };
        Policy { memory: Some(configure(current)), ..self }
    }

    /// Disable the memory controller and erase any configuration it may have.
    pub fn disable_memory(self) -> (r: Self)
        ensures
            r == (Policy { memory: None, ..self }),
    {
        Policy { memory: None, ..self }
    }

    /// Enable and modify the configuration of the io controller.
    pub fn io(self, configure: impl FnOnce(IoController) -> IoController) -> (r: Self)
        requires
            call_requires(configure, (self.io.unwrap_or(IoController { subtree_control: false }),)),
        ensures
            r.io matches Some(c) && call_ensures(
                configure,
                (self.io.unwrap_or(IoController { subtree_control: false }),),
                c,
            ),
            r == (Policy { io: r.io, ..self }),
    {
        let current = match self.io {
            Some(c) => c,
            None => IoController::default(),
        };
        Policy { io: Some(configure(current)), ..self }
    }

    /// Disable the io controller and erase any configuration it may have.
    pub fn disable_io(self) -> (r: Self)
        ensures
            r == (Policy { io: None, ..self }),
    {
        Policy { io: None, ..self }
    }

    /// Enable and modify the configuration of the pids controller.
    pub fn pids(self, configure: impl FnOnce(PidsController) -> PidsController) -> (r: Self)
        requires
            call_requires(
                configure,
                (self.pids.unwrap_or(PidsController { subtree_control: false, max: None }),),
            ),
        ensures
            r.pids matches Some(c) && call_ensures(
                configure,
                (self.pids.unwrap_or(PidsController { subtree_control: false, max: None }),),
                c,
            ),
            r == (Policy { pids: r.pids, ..self }),
    {
        let current = match self.pids {
            Some(c) => c,
            None => PidsController::default(),
        };
        Policy { pids: Some(configure(current)), ..self }
    }

    /// Disable the pids controller and erase any configuration it may have.
    pub fn disable_pids(self) -> (r: Self)
        ensures
            r == (Policy { pids: None, ..self }),
    {
        Policy { pids: None, ..self }
    }

    /// The writes of the controllers and how applying them ends, given the
    /// controllers available to the cgroup: cpu, memory, io and pids in turn.
    pub open spec fn spec_controller_plan(self, available: CgroupControllers) -> (
        Seq<(CgroupFile, Seq<u8>)>,
        Result<(), Host>,
    ) {
        controller_stage(
            self.cpu is Some,
            self.cpu.unwrap().spec_writes(),
            Controller::Cpu,
            available.cpu,
            controller_stage(
                self.memory is Some,
                self.memory.unwrap().spec_writes(),
                Controller::Memory,
                available.memory,
                controller_stage(
                    self.io is Some,
                    self.io.unwrap().spec_writes(),
                    Controller::Io,
                    available.io,
                    controller_stage(
                        self.pids is Some,
                        self.pids.unwrap().spec_writes(),
                        Controller::Pids,
                        available.pids,
                        (Seq::empty(), Ok(())),
                    ),
                ),
            ),
        )
    }

    /// The writes that apply the core properties; they come before the
    /// controllers are read.
    pub fn core_writes(&self) -> (w: Vec<CgroupWrite>)
        ensures
            writes_view(w@) == self.cgroup.spec_writes(),
    {
        self.cgroup.writes()
    }

    /// The writes of the enabled controllers, in the order cpu, memory, io,
    /// pids, and how applying them ends. An enabled controller that the
    /// cgroup lacks stops the plan there with
    /// [`Host::MissingCgroupController`]; the writes of the controllers before
    /// it are still made.
    pub fn controller_writes(&self, available: &CgroupControllers) -> (plan: (
        Vec<CgroupWrite>,
        Result<(), Host>,
    ))
        ensures
            (writes_view(plan.0@), plan.1) == self.spec_controller_plan(*available),
    {
        let ghost r4: (Seq<(CgroupFile, Seq<u8>)>, Result<(), Host>) = (Seq::empty(), Ok(()));
        let ghost r3 = controller_stage(
            self.pids is Some,
            self.pids.unwrap().spec_writes(),
            Controller::Pids,
            available.pids,
            r4,
        );
        let ghost r2 = controller_stage(
            self.io is Some,
            self.io.unwrap().spec_writes(),
            Controller::Io,
            available.io,
            r3,
        );
        let ghost r1 = controller_stage(
            self.memory is Some,
            self.memory.unwrap().spec_writes(),
            Controller::Memory,
            available.memory,
            r2,
        );
        let mut w: Vec<CgroupWrite> = Vec::new();
        let cpu = match &self.cpu {
            Some(c) => Some(c.writes()),
            None => None,
        };
        let outcome = run_stage(&mut w, cpu, Controller::Cpu, available.cpu);
        if outcome.is_err() {
            return (w, outcome);
        }
        assert(writes_view(w@) + r1.0 =~= self.spec_controller_plan(*available).0);
        let memory = match &self.memory {
            Some(c) => Some(c.writes()),
            None => None,
        };
        let ghost before = writes_view(w@);
        let outcome = run_stage(&mut w, memory, Controller::Memory, available.memory);
        if outcome.is_err() {
            return (w, outcome);
        }
        assert(writes_view(w@) + r2.0 =~= before + r1.0);
        let io = match &self.io {
            Some(c) => Some(c.writes()),
            None => None,
        };
        let ghost before = writes_view(w@);
        let outcome = run_stage(&mut w, io, Controller::Io, available.io);
        if outcome.is_err() {
            return (w, outcome);
        }
        assert(writes_view(w@) + r3.0 =~= before + r2.0);
        let pids = match &self.pids {
            Some(c) => Some(c.writes()),
            None => None,
        };
        let ghost before = writes_view(w@);
        let outcome = run_stage(&mut w, pids, Controller::Pids, available.pids);
        if outcome.is_err() {
            return (w, outcome);
        }
        assert(writes_view(w@) =~= before + r3.0);
        (w, Ok(()))
    }
}

/// Runs one controller's stage of a plan: appends its writes when it is
/// enabled and available, and reports the missing controller when it is
/// enabled but not available.
fn run_stage(
    w: &mut Vec<CgroupWrite>,
    writes: Option<Vec<CgroupWrite>>,
    controller: Controller,
    available: bool,
) -> (outcome: Result<(), Host>)
    ensures
        match writes {
            None => final(w)@ == old(w)@ && outcome is Ok,
            Some(v) => if available {
                &&& writes_view(final(w)@) == writes_view(old(w)@) + writes_view(v@)
                &&& outcome is Ok
            } else {
                &&& final(w)@ == old(w)@
                &&& outcome == Err::<(), Host>(Host::MissingCgroupController(controller))
            },
        },
{
    match writes {
        None => Ok(()),
        Some(mut v) => {
            if !available {
                return Err(Host::MissingCgroupController(controller));
            }
            let ghost vv = writes_view(v@);
            w.append(&mut v);
            assert(writes_view(w@) =~= writes_view(old(w)@) + vv);
            Ok(())
        },
    }
}

} // verus!
