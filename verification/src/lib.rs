//! An in-memory representation of memory-mapped hardware register maps —
//! devices made of peripherals, peripherals made of registers, registers made
//! of bitfields — together with a canonical textual renderer.
//!
//! Every entity renders through one shared contract: *write yourself into a
//! destination buffer at a given indent level*. The exact character sequence
//! each renderer produces is stated as a spec function beside it, and each
//! executable renderer is proved to append exactly that sequence.

pub mod access;
pub mod device;
pub mod ident;
pub mod module;
pub mod peripheral;
pub mod register;
pub mod text;
pub mod used;

pub use access::Access;
pub use device::DeviceDefinition;
pub use ident::Ident;
pub use ident::Path;
pub use module::FileContent;
pub use module::Item;
pub use module::Module;
pub use register::FieldInstance;
pub use register::RegisterDefinition;
pub use register::RegisterInstance;
pub use register::RegisterSlot;
pub use register::RegisterType;
pub use peripheral::PeripheralDefinition;
pub use peripheral::PeripheralInstance;
pub use used::Use;
pub use used::UseTree;
