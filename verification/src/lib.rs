//! Core of a live shader-authoring tool: the typed parameter model of a
//! shader, the extraction of parameters from a reserved uniform block, the
//! packing of parameter values into a uniform buffer, and the decisions of the
//! render pipeline and of the reload orchestrator.

pub mod input;
pub mod number;
pub mod cast;
pub mod shader;
pub mod preprocessor;
pub mod loader;
pub mod renderer;
pub mod orchestrator;
