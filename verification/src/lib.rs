//! A versioned plugin ABI for a window capability, as a safe model.
//!
//! A host hands the module a table of callbacks (logging, allocation, release)
//! together with an opaque user token. The module checks the table's header,
//! obtains its private context from the host's allocator and answers with a
//! table of its own. Every window operation then runs on that context.
//!
//! Addresses are plain integers here (`0` is the null pointer) and a nullable
//! pointer to a record is an `Option` of a reference. The context keeps, as
//! ghost state, the list of requests it has made of the host's allocator, so
//! that the contracts can say which blocks the module holds at any time.
#![allow(non_camel_case_types)]
#![allow(non_snake_case)]

pub mod abi;
pub mod context;
pub mod host;
pub mod laws;
pub mod model;
pub mod module;
pub mod window;

pub use crate::abi::dng_abi_header_v1;
pub use crate::abi::dng_status_v1;
pub use crate::abi::dng_str_view_v1;
pub use crate::abi::dng_window_desc_v1;
pub use crate::abi::dng_window_handle_v1;
pub use crate::abi::dng_window_size_v1;
pub use crate::abi::host_api_struct_size;
pub use crate::abi::module_api_struct_size;
pub use crate::abi::window_api_struct_size;
pub use crate::abi::DNG_ABI_VERSION_V1;
pub use crate::abi::DNG_STATUS_FAIL;
pub use crate::abi::DNG_STATUS_INVALID_ARG;
pub use crate::abi::DNG_STATUS_OK;
pub use crate::abi::DNG_STATUS_OUT_OF_MEMORY;
pub use crate::abi::DNG_STATUS_UNSUPPORTED;
pub use crate::context::NullWindowCtx;
pub use crate::host::dng_host_api_v1;
pub use crate::host::log_message;
pub use crate::module::bind_module;
pub use crate::module::catch_unwind_status;
pub use crate::module::dngModuleGetApi_v1;
pub use crate::module::dng_module_api_v1;
pub use crate::module::dng_window_api_v1;
pub use crate::module::module_shutdown;
pub use crate::module::ModuleEntry;
pub use crate::window::window_create;
pub use crate::window::window_destroy;
pub use crate::window::window_get_size;
pub use crate::window::window_poll;
pub use crate::window::window_set_title;
