//! Workload classes and the summaries they are inferred from.
use vstd::prelude::*;
use crate::domain::number::Real64;

verus! {

#[derive(Clone, Copy, Debug, PartialEq, Eq, Structural)]
pub enum WorkloadClass {
    Database,
    Interactive,
    Build,
    Batch,
    SystemService,
    Unknown,
}

/// The label of a workload class: the variant's own name.
pub open spec fn class_label(c: WorkloadClass) -> Seq<char> {
    match c {
        WorkloadClass::Database => "Database"@,
        WorkloadClass::Interactive => "Interactive"@,
        WorkloadClass::Build => "Build"@,
        WorkloadClass::Batch => "Batch"@,
        WorkloadClass::SystemService => "SystemService"@,
        WorkloadClass::Unknown => "Unknown"@,
    }
}

impl WorkloadClass {
    pub fn label(&self) -> (s: &'static str)
        ensures
            s@ == class_label(*self),
    {
        match self {
            WorkloadClass::Database => "Database",
            WorkloadClass::Interactive => "Interactive",
            WorkloadClass::Build => "Build",
            WorkloadClass::Batch => "Batch",
            WorkloadClass::SystemService => "SystemService",
            WorkloadClass::Unknown => "Unknown",
        }
    }
}

/// Aggregate figures from which a workload is classified.
#[derive(Debug)]
pub struct WorkloadObservationSummary {
    pub cpu_utilization: Real64,
    pub memory_utilization: Real64,
    pub process_count: u32,
    pub process_names: Vec<String>,
    pub cpu_pressure: Option<Real64>,
}

impl WorkloadObservationSummary {
    pub fn new(
        cpu_utilization: Real64,
        memory_utilization: Real64,
        process_count: u32,
        process_names: Vec<String>,
        cpu_pressure: Option<Real64>,
    ) -> (s: Self)
        ensures
            s.cpu_utilization == cpu_utilization,
            s.memory_utilization == memory_utilization,
            s.process_count == process_count,
            s.process_names == process_names,
            s.cpu_pressure == cpu_pressure,
    {
        WorkloadObservationSummary {
            cpu_utilization,
            memory_utilization,
            process_count,
            process_names,
            cpu_pressure,
        }
    }
}


impl Clone for WorkloadObservationSummary {
    fn clone(&self) -> (r: Self)
        ensures
            r.cpu_utilization == self.cpu_utilization,
            r.memory_utilization == self.memory_utilization,
            r.process_count == self.process_count,
            r.process_names@ == self.process_names@,
            r.cpu_pressure == self.cpu_pressure,
    {
        let process_names = self.process_names.clone();
        proof {
            assert(process_names@ =~= self.process_names@);
        }
        WorkloadObservationSummary {
            cpu_utilization: self.cpu_utilization,
            memory_utilization: self.memory_utilization,
            process_count: self.process_count,
            process_names,
            cpu_pressure: self.cpu_pressure,
        }
    }
}

} // verus!
