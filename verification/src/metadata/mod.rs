//! What a loaded class is made of.

pub mod class_file;
pub mod class_registry;
pub mod descriptor;
pub mod descriptor_laws;
pub mod registry_laws;

pub use class_file::{ClassFile, Code, ConstantPool, ConstantPoolEntry, FieldInfo, LineNumberEntry, MethodInfo};
pub use class_registry::{ClassRegistry, DispatchEntry, FieldLayout, LoadedClass};
pub use descriptor::{FieldType, MethodDescriptor, ReturnDescriptor};
