//! A verified model of the JSAPI-shaped engine glue used by the Soliloquy
//! browser, together with the Soliloquy script bridge that answers simple
//! evaluations locally.
#![allow(non_snake_case, non_camel_case_types, non_upper_case_globals)]

pub mod bridge;
pub mod descriptor;
pub mod evaluator;
pub mod gc;
pub mod glue;
pub mod jsapi;
pub mod jsval;
pub mod optimizations;
pub mod os_protocol;
pub mod props;
pub mod realms;
pub mod record;
pub mod runtime;
pub mod script;
pub mod text;
pub mod types;
pub mod urls;
pub mod v8_glue;
