//! The execution engine: the capability probe that picks its memory strategy,
//! its settings, and the compilation of the workload.
//!
//! The host would like the pooling allocator, which reserves a fixed region of
//! address space for every linear memory. Whether the platform can spare that
//! much address space is found out once, at startup, by a trial allocation in a
//! throwaway engine. The engine proper is then built with component-model
//! support and asynchronous execution switched on.

use vstd::prelude::*;
use vstd::string::*;
use crate::component::AdaptError;
use crate::component::componentize;
use crate::component::componentized;

verus! {

/// `wasmtime::Engine`: a built engine, carried through unread.
#[verifier::external_type_specification]
#[verifier::external_body]
pub struct ExEngine(wasmtime::Engine);

/// `wasmtime::Store`: the state that instances of one execution live in.
#[verifier::external_type_specification]
#[verifier::external_body]
#[verifier::reject_recursive_types(T)]
pub struct ExStore<T>(wasmtime::Store<T>);

/// `wasmtime::MemoryType`: the limits of a linear memory.
#[verifier::external_type_specification]
#[verifier::external_body]
pub struct ExMemoryType(wasmtime::MemoryType);

/// `wasmtime::Memory`: a linear memory that has been allocated.
#[verifier::external_type_specification]
#[verifier::external_body]
pub struct ExMemory(wasmtime::Memory);

/// `wasmtime::component::Component`: a compiled component.
#[verifier::external_type_specification]
#[verifier::external_body]
pub struct ExComponent(wasmtime::component::Component);

/// The number of address bits that the probe asks for.
pub const PROBE_BITS: u32 = 42;

/// The number of address bits that one page of linear memory spans.
pub const PAGE_BITS: u32 = 16;

/// The bytes of address space that the probe reserves: two to the power [`PROBE_BITS`].
pub const PROBE_RESERVATION: u64 = 0x400_0000_0000;

/// The pages that the probe's memory may grow to. Together they span
/// [`PROBE_RESERVATION`] bytes.
pub const PROBE_PAGES: u64 = 0x400_0000;

/// The most pages that a 64-bit memory may be declared with: the byte size
/// must stay below two to the power 64.
pub const MAX_PAGES: u64 = 0xffff_ffff_ffff;

/// Builds the throwaway engine of the probe: `wasmtime::Config::new`, then
/// `wasm_memory64` switched on and `static_memory_maximum_size` set to
/// `reservation`, then `wasmtime::Engine::new`. Whether an engine can be built
/// depends on the machine, so nothing is claimed of the outcome.
#[verifier::external_body]
fn probe_engine(reservation: u64) -> Result<wasmtime::Engine, anyhow::Error> {
    let mut config = wasmtime::Config::new();
    config.wasm_memory64(true);
    config.static_memory_maximum_size(reservation);
    wasmtime::Engine::new(&config)
}

/// Calls `wasmtime::Store::new` with no data.
#[verifier::external_body]
fn new_store(engine: &wasmtime::Engine) -> wasmtime::Store<()> {
    wasmtime::Store::new(engine, ())
}

/// Calls `wasmtime::MemoryType::new64` with a minimum of no pages. That
/// function panics where the limits are out of order or the byte size cannot
/// be addressed with 64 bits, which the bound on `maximum` rules out.
#[verifier::external_body]
fn memory64_type(maximum: u64) -> wasmtime::MemoryType
    requires
        maximum <= MAX_PAGES,
{
    wasmtime::MemoryType::new64(0, Some(maximum))
}

/// Calls `wasmtime::Memory::new`. Whether the allocation succeeds depends on
/// the address space that the platform grants, so nothing is claimed of the
/// outcome.
#[verifier::external_body]
fn new_memory(store: &mut wasmtime::Store<()>, limits: wasmtime::MemoryType) -> Result<
    wasmtime::Memory,
    anyhow::Error,
> {
    wasmtime::Memory::new(store, limits)
}

/// Calls `wasmtime::component::Component::new`.
#[verifier::external_body]
fn compile(engine: &wasmtime::Engine, wasm: &[u8]) -> Result<
    wasmtime::component::Component,
    anyhow::Error,
> {
    wasmtime::component::Component::new(engine, wasm)
}

/// What the probe concludes from the trial allocation: the pooling allocator is
/// asked for where the allocation succeeded, and nothing is said otherwise. The
/// probe never advises against pooling.
pub open spec fn pooling_choice(allocated: bool) -> Option<bool> {
    if allocated {
        Some(true)
    } else {
        None
    }
}

/// What the probe concludes from the trial allocation.
pub fn choose_pooling(allocated: bool) -> (choice: Option<bool>)
    ensures
        choice == pooling_choice(allocated),
{
    if allocated {
        Some(true)
    } else {
        None
    }
}

/// Probes the platform: can a 64-bit linear memory of [`PROBE_PAGES`] pages be
/// reserved in an engine that reserves [`PROBE_RESERVATION`] bytes per memory?
///
/// Engine and store are thrown away. The answer is that of the platform; of
/// every answer it holds that pooling is asked for or left open, never refused.
/// The call fails only where not even the throwaway engine can be built.
pub fn use_pooling_allocator_by_default() -> (probe: Result<Option<bool>, anyhow::Error>)
    ensures
        probe matches Ok(choice) ==> choice == pooling_choice(true) || choice == pooling_choice(
            false,
        ),
{
    match probe_engine(PROBE_RESERVATION) {
        Ok(engine) => {
            let mut store = new_store(&engine);
            let limits = memory64_type(PROBE_PAGES);
            let allocated = new_memory(&mut store, limits).is_ok();
            Ok(choose_pooling(allocated))
        },
        Err(cause) => Err(cause),
    }
}

/// The probe's numbers agree: the reservation is two to the power of the
/// probed bits, the pages ask for exactly the reserved bytes, and they stay
/// within what a 64-bit memory may be declared with.
pub proof fn law_probe_asks_for_what_it_reserves()
    ensures
        PROBE_RESERVATION == 1u64 << PROBE_BITS,
        PROBE_PAGES == 1u64 << (PROBE_BITS - PAGE_BITS),
        PROBE_PAGES * (1u64 << PAGE_BITS) == PROBE_RESERVATION,
        PROBE_PAGES <= MAX_PAGES,
        MAX_PAGES * (1u64 << PAGE_BITS) <= u64::MAX,
{
    assert(0x400_0000_0000u64 == 1u64 << 42u32) by (bit_vector);
    assert(0x400_0000u64 == 1u64 << 26u32) by (bit_vector);
    assert(0x1_0000u64 == 1u64 << 16u32) by (bit_vector);
}

/// The settings that the engine is built with.
#[derive(Clone, Copy, Debug, PartialEq, Eq, Structural)]
pub struct EngineSettings {
    /// Whether the pooling allocator is asked for, refused, or left to the
    /// engine's own default.
    pub pooling_allocator: Option<bool>,
    /// Whether components are supported.
    pub component_model: bool,
    /// Whether execution is asynchronous.
    pub async_support: bool,
}

/// The settings of the host's engine: components and asynchronous execution
/// are on, and the pooling allocator follows the probe.
pub open spec fn host_settings(pooling: Option<bool>) -> EngineSettings {
    EngineSettings { pooling_allocator: pooling, component_model: true, async_support: true }
}

/// The pooling choice that a probe comes to: its answer, or none where the
/// probe itself failed.
pub fn pooling_default(probe: Result<Option<bool>, anyhow::Error>) -> (choice: Option<bool>)
    ensures
        choice == match probe {
            Ok(answer) => answer,
            Err(_) => None,
        },
{
    match probe {
        Ok(answer) => answer,
        Err(_) => None,
    }
}

/// The settings of the host's engine for a given pooling choice.
pub fn engine_settings(pooling: Option<bool>) -> (settings: EngineSettings)
    ensures
        settings == host_settings(pooling),
{
    EngineSettings { pooling_allocator: pooling, component_model: true, async_support: true }
}

/// Why no engine could be built.
#[derive(Debug)]
pub enum EngineError {
    /// The default engine options could not be made.
    Options(anyhow::Error),
    /// The options were not accepted as engine settings.
    Config(anyhow::Error),
    /// The engine refused the settings.
    Engine(anyhow::Error),
}

impl EngineError {
    /// The text of the message that reports this error.
    pub open spec fn message_text(&self) -> Seq<char> {
        match self {
            EngineError::Options(_) => "failed to construct common Wasmtime options"@,
            EngineError::Config(_) => "failed to construct Wasmtime config"@,
            EngineError::Engine(_) => "failed to initialize Wasmtime engine"@,
        }
    }

    /// The message that reports this error.
    pub fn message(&self) -> (message: String)
        ensures
            message@ == self.message_text(),
    {
        match self {
            EngineError::Options(_) => String::from_str(
                "failed to construct common Wasmtime options",
            ),
            EngineError::Config(_) => String::from_str("failed to construct Wasmtime config"),
            EngineError::Engine(_) => String::from_str("failed to initialize Wasmtime engine"),
        }
    }

    /// Gives up the cause that the engine reported.
    pub fn into_cause(self) -> (cause: anyhow::Error)
        ensures
            cause == match self {
                EngineError::Options(cause) => cause,
                EngineError::Config(cause) => cause,
                EngineError::Engine(cause) => cause,
            },
    {
        match self {
            EngineError::Options(cause) => cause,
            EngineError::Config(cause) => cause,
            EngineError::Engine(cause) => cause,
        }
    }
}

/// Builds an engine from the engine's default options and `settings`:
/// `clap::Parser::try_parse_from` for `wasmtime_cli_flags::CommonOptions` on an
/// empty command line, then `CommonOptions::config` for the host's own target
/// with the pooling choice, then `wasmtime::Config::wasm_component_model` and
/// `async_support`, then `wasmtime::Engine::new`. The first step that fails is
/// reported. Whether an engine can be built depends on the machine, so nothing
/// is claimed of the outcome.
#[verifier::external_body]
fn configured_engine(settings: &EngineSettings) -> Result<wasmtime::Engine, EngineError> {
    let empty = core::iter::empty::<&'static str>();
    let mut options =
        match <wasmtime_cli_flags::CommonOptions as clap::Parser>::try_parse_from(empty) {
            Ok(options) => options,
            Err(cause) => return Err(EngineError::Options(anyhow::Error::from(cause))),
        };
    let mut config = match options.config(None, settings.pooling_allocator) {
        Ok(config) => config,
        Err(cause) => return Err(EngineError::Config(cause)),
    };
    config.wasm_component_model(settings.component_model);
    config.async_support(settings.async_support);
    wasmtime::Engine::new(&config).map_err(EngineError::Engine)
}

/// Builds the host's engine from the outcome of the probe.
///
/// The engine is built with the settings that [`host_settings`] names for the
/// probe's pooling choice, and is handed back together with them. No attempt is
/// repeated: the first step that fails is reported.
pub fn build_engine(probe: Result<Option<bool>, anyhow::Error>) -> (built: Result<
    HostEngine,
    EngineError,
>)
    ensures
        built matches Ok(host) ==> host.built_with() == host_settings(
            match probe {
                Ok(answer) => answer,
                Err(_) => None,
            },
        ),
{
    let settings = engine_settings(pooling_default(probe));
    match configured_engine(&settings) {
        Ok(engine) => Ok(HostEngine { engine, settings }),
        Err(error) => Err(error),
    }
}

/// Why the workload's bytes did not become a compiled component.
#[derive(Debug)]
pub enum PrepareError {
    /// The bytes are a raw module that could not be brought into component form.
    Adapt(AdaptError),
    /// The component did not compile.
    Compile(anyhow::Error),
}

impl PrepareError {
    /// The text of the message that reports this error.
    pub open spec fn message_text(&self) -> Seq<char> {
        match self {
            PrepareError::Adapt(error) => error.message_text(),
            PrepareError::Compile(_) => "failed to compile component"@,
        }
    }

    /// The message that reports this error.
    pub fn message(&self) -> (message: String)
        ensures
            message@ == self.message_text(),
    {
        match self {
            PrepareError::Adapt(error) => error.message(),
            PrepareError::Compile(_) => String::from_str("failed to compile component"),
        }
    }

    /// Gives up the cause that the encoder or the engine reported.
    pub fn into_cause(self) -> (cause: anyhow::Error)
        ensures
            cause == match self {
                PrepareError::Adapt(error) => error.cause(),
                PrepareError::Compile(cause) => cause,
            },
    {
        match self {
            PrepareError::Adapt(error) => error.into_cause(),
            PrepareError::Compile(cause) => cause,
        }
    }
}

/// Brings the workload's bytes into component form and compiles them.
///
/// Where the bytes are a raw module that the encoder refuses, the call fails
/// with the encoder's step and nothing is compiled. Otherwise the component is
/// handed to the engine, whose verdict is final.
pub fn prepare_component(engine: &wasmtime::Engine, wasm: Vec<u8>, adapter: &[u8]) -> (prepared:
    Result<wasmtime::component::Component, PrepareError>)
    ensures
        match componentized(wasm@, adapter@) {
            Err(stage) => prepared matches Err(PrepareError::Adapt(error)) && error.stage()
                == stage,
            Ok(_) => prepared is Ok || prepared matches Err(PrepareError::Compile(_)),
        },
{
    match componentize(wasm, adapter) {
        Ok(component) => match compile(engine, component.as_slice()) {
            Ok(compiled) => Ok(compiled),
            Err(cause) => Err(PrepareError::Compile(cause)),
        },
        Err(error) => Err(PrepareError::Adapt(error)),
    }
}

/// The host's engine, together with the settings that were handed to the
/// engine when it was built.
pub struct HostEngine {
    engine: wasmtime::Engine,
    settings: EngineSettings,
}

impl HostEngine {
    /// The settings that the engine was built with.
    pub closed spec fn built_with(&self) -> EngineSettings {
        self.settings
    }

    /// The engine itself.
    pub closed spec fn built(&self) -> wasmtime::Engine {
        self.engine
    }

    /// The settings that the engine was built with.
    pub fn settings(&self) -> (settings: EngineSettings)
        ensures
            settings == self.built_with(),
    {
        self.settings
    }

    /// The engine itself.
    pub fn engine(&self) -> (engine: &wasmtime::Engine)
        ensures
            *engine == self.built(),
    {
        &self.engine
    }

    /// Gives up the engine.
    pub fn into_engine(self) -> (engine: wasmtime::Engine)
        ensures
            engine == self.built(),
    {
        self.engine
    }
}

} // verus!
