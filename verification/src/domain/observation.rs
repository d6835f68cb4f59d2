//! Observations of system state collected by observers.
use vstd::prelude::*;
use crate::domain::number::Real64;
use crate::ids::ObservationId;

verus! {

/// One reading of system state.
#[derive(Debug)]
pub struct Observation {
    pub id: ObservationId,
    pub source: ObservationSource,
    pub observed_at: String,
    pub collection_duration_ms: u64,
    pub payload: ObservationPayload,
}

impl Clone for Observation {
    fn clone(&self) -> (r: Self)
        ensures
            r == *self,
    {
        Observation {
            id: self.id.clone(),
            source: self.source,
            observed_at: self.observed_at.clone(),
            collection_duration_ms: self.collection_duration_ms,
            payload: self.payload.clone(),
        }
    }
}

/// Which observer produced an observation.
#[derive(Clone, Copy, Debug, PartialEq, Eq, Structural)]
pub enum ObservationSource {
    Process,
    Memory,
    Cgroup,
    Cpu,
    File,
    Device,
    Network,
    Security,
    Benchmark,
}

/// What an observation reports.
#[derive(Debug)]
pub enum ObservationPayload {
    Process(ProcessObservation),
    Memory(MemoryObservation),
    Cgroup(CgroupObservation),
    Cpu(CpuObservation),
    File(FileObservation),
    Device(DeviceObservation),
    Security(SecurityObservation),
    Empty,
}

impl Clone for ObservationPayload {
    fn clone(&self) -> (r: Self)
        ensures
            r == *self,
    {
        match self {
            ObservationPayload::Process(p) => ObservationPayload::Process(p.clone()),
            ObservationPayload::Memory(m) => ObservationPayload::Memory(*m),
            ObservationPayload::Cgroup(c) => ObservationPayload::Cgroup(c.clone()),
            ObservationPayload::Cpu(c) => ObservationPayload::Cpu(*c),
            ObservationPayload::File(f) => ObservationPayload::File(f.clone()),
            ObservationPayload::Device(d) => ObservationPayload::Device(d.clone()),
            ObservationPayload::Security(s) => ObservationPayload::Security(s.clone()),
            ObservationPayload::Empty => ObservationPayload::Empty,
        }
    }
}

/// A process seen in the process table.
#[derive(Debug)]
pub struct ProcessObservation {
    pub pid: u32,
    pub parent_pid: u32,
    pub command: String,
    pub cpu_percent: Real64,
    pub memory_bytes: u64,
    pub state: String,
}

impl Clone for ProcessObservation {
    fn clone(&self) -> (r: Self)
        ensures
            r == *self,
    {
        ProcessObservation {
            pid: self.pid,
            parent_pid: self.parent_pid,
            command: self.command.clone(),
            cpu_percent: self.cpu_percent,
            memory_bytes: self.memory_bytes,
            state: self.state.clone(),
        }
    }
}

/// System memory usage.
#[derive(Clone, Copy, Debug)]
pub struct MemoryObservation {
    pub total_bytes: u64,
    pub available_bytes: u64,
    pub used_bytes: u64,
    pub swap_total_bytes: u64,
    pub swap_used_bytes: u64,
    pub pressure_some_avg10: Option<Real64>,
    pub pressure_full_avg10: Option<Real64>,
}

/// Resource counters of one cgroup.
#[derive(Debug)]
pub struct CgroupObservation {
    pub cgroup_path: String,
    pub memory_current_bytes: u64,
    pub memory_swap_current_bytes: u64,
    pub cpu_usage_usec: u64,
    pub cpu_user_usec: u64,
    pub cpu_system_usec: u64,
    pub cpu_nr_throttled: u64,
    pub cpu_throttled_usec: u64,
    pub processes: u32,
}

impl Clone for CgroupObservation {
    fn clone(&self) -> (r: Self)
        ensures
            r == *self,
    {
        CgroupObservation {
            cgroup_path: self.cgroup_path.clone(),
            memory_current_bytes: self.memory_current_bytes,
            memory_swap_current_bytes: self.memory_swap_current_bytes,
            cpu_usage_usec: self.cpu_usage_usec,
            cpu_user_usec: self.cpu_user_usec,
            cpu_system_usec: self.cpu_system_usec,
            cpu_nr_throttled: self.cpu_nr_throttled,
            cpu_throttled_usec: self.cpu_throttled_usec,
            processes: self.processes,
        }
    }
}

/// System-wide CPU pressure.
#[derive(Clone, Copy, Debug)]
pub struct CpuObservation {
    pub pressure_some_avg10: Option<Real64>,
    pub pressure_full_avg10: Option<Real64>,
    pub nr_running: Option<u64>,
}

/// A file-system event.
#[derive(Debug)]
pub struct FileObservation {
    pub path: String,
    pub event: String,
}

impl Clone for FileObservation {
    fn clone(&self) -> (r: Self)
        ensures
            r == *self,
    {
        FileObservation { path: self.path.clone(), event: self.event.clone() }
    }
}

/// A device event.
#[derive(Debug)]
pub struct DeviceObservation {
    pub device: String,
    pub event: String,
}

impl Clone for DeviceObservation {
    fn clone(&self) -> (r: Self)
        ensures
            r == *self,
    {
        DeviceObservation { device: self.device.clone(), event: self.event.clone() }
    }
}

/// A security signal.
#[derive(Debug)]
pub struct SecurityObservation {
    pub signal: String,
    pub severity: Severity,
}

impl Clone for SecurityObservation {
    fn clone(&self) -> (r: Self)
        ensures
            r == *self,
    {
        SecurityObservation { signal: self.signal.clone(), severity: self.severity }
    }
}

/// Severity of a security signal.
#[derive(Clone, Copy, Debug, PartialEq, Eq, Structural)]
pub enum Severity {
    Info,
    Low,
    Medium,
    High,
    Critical,
}

} // verus!
