//! Runtime support for a freestanding kernel: an adapter over the raw
//! allocator, the terminal fault reporter, and the loader of the ACPI root
//! pointer record.

pub mod allocator;
pub mod decimal;
pub mod fault;
pub mod memory;
pub mod rsdp;

pub use allocator::{AllocationHandle, AllocationRequest, BitmapAllocator};
pub use fault::{CoreState, DiagnosticTemplate, Fault, FaultRecord, PanicReporter, SourceLocation};
pub use memory::{MappedRegion, NULL_ADDRESS};
pub use rsdp::{make_rsdp, Rsdp, RSDP_LEN};
