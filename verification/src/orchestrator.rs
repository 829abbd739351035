//! The state of a session and what each command and each event makes of it:
//! which shader is loaded, whether its file is watched, the globals, the
//! clock of the simulation, and the export of an image.

use vstd::prelude::*;
use crate::loader::LoadError;
use crate::number::Single;
use crate::preprocessor::same_text;
use crate::renderer::{
    export_of,
    frame_of,
    ExportError,
    ExportPlan,
    FramePlan,
    RenderError,
    Renderer,
    ShaderRenderPass,
};
use crate::shader::{
    all_reset,
    layout_end,
    lemma_packed_len,
    lemma_same_kinds_same_layout,
    packed,
    same_kinds,
    Globals,
    Shader,
    ShaderMetadata,
    Slider,
    UVector2,
    GLOBALS_SIZE,
};

verus! {

/// What the user can ask of a session.
#[derive(Clone, Debug)]
pub enum Command {
    /// Load the shader at a path
    Load(String),
    /// Load the current shader again
    Reload,
    /// Watch the file of the current shader
    Watch,
    /// Stop watching it
    Unwatch,
    /// Restart the simulation
    ResetGlobals,
    /// Set every parameter back to its default
    ResetParams,
    /// Export one image
    ExportImage,
    /// Leave
    Exit,
}

/// What the caller of a session has to do for it.
#[derive(Clone, Debug)]
pub enum Action {
    /// Nothing
    Nothing,
    /// Load the shader at this path and hand the outcome to
    /// [`Nuance::load`]
    Load(String),
    /// Register this path with the file watcher
    Watch(String),
    /// Take this path off the file watcher
    Unwatch(String),
    /// Take the first path off the file watcher, then load the shader at
    /// the second and hand the outcome to [`Nuance::load`]
    Replace { unwatch: String, load: String },
    /// Restart the clock of the simulation
    ResetClock,
    /// Render one image with these globals and write it out
    Export(Globals, ExportPlan),
    /// End the program
    Exit,
}

/// The formats an image can be exported in.
#[derive(Clone, Copy, Debug, PartialEq, Eq, Structural)]
pub enum ImageFormat {
    Png,
    Bmp,
    Gif,
    Jpeg,
}

/// What to export: the size of the image, its format and where it goes.
#[derive(Clone, Debug)]
pub struct ExportData {
    pub size: UVector2,
    pub format: ImageFormat,
    pub path: String,
}

impl Default for ExportData {
    fn default() -> (data: ExportData)
        ensures
            data.size == (UVector2 { x: 2048, y: 2048 }),
            data.format == ImageFormat::Png,
            data.path@ == "render.png"@,
    {
        ExportData {
            size: UVector2 { x: 2048, y: 2048 },
            format: ImageFormat::Png,
            path: "render.png".to_owned(),
        }
    }
}

/// The settings of a session.
#[derive(Clone, Copy, Debug, PartialEq, Eq, Structural)]
pub struct Settings {
    /// The time between two frames, in nanoseconds
    pub target_framerate: u64,
    /// What one step of the mouse wheel adds to the mouse wheel global
    pub mouse_wheel_step: Single,
}

/// What to do about the next frame.
#[derive(Clone, Copy, Debug, PartialEq, Eq, Structural)]
pub enum Schedule {
    /// Draw it now
    Redraw,
    /// Wait this many nanoseconds
    Wait(u64),
}

/// A session: the loaded shader, the state of the render pipeline, the
/// globals and the clock of the simulation.
#[derive(Clone, Debug)]
pub struct Nuance {
    /// The settings
    pub settings: Settings,
    /// The current loaded shader
    pub shader: Option<Shader>,
    /// The file of the shader is watched
    pub watching: bool,
    /// The render pipeline
    pub renderer: Renderer,
    /// The values passed to the shader
    pub globals: Globals,
    /// The time that the simulation ran before the last pause, in
    /// nanoseconds
    pub sim_duration: u64,
    /// The simulation is paused
    pub paused: bool,
    /// The export configuration
    pub export_data: ExportData,
}

/// The length of the parameter buffer of a shader: zero without metadata.
pub open spec fn params_size(shader: Shader) -> nat {
    match shader.metadata {
        Some(metadata) => layout_end(metadata.sliders@),
        None => 0,
    }
}

/// The session `after` is the session `before` with every parameter of its
/// shader set back to its default.
pub open spec fn params_reset(before: Nuance, after: Nuance) -> bool {
    &&& after.settings == before.settings
    &&& after.watching == before.watching
    &&& after.renderer == before.renderer
    &&& after.globals == before.globals
    &&& after.sim_duration == before.sim_duration
    &&& after.paused == before.paused
    &&& after.export_data == before.export_data
    &&& match before.shader {
        None => after.shader is None,
        Some(shader) => {
            &&& after.shader is Some
            &&& after.shader->Some_0.main == shader.main
            &&& after.shader->Some_0.sources == shader.sources
            &&& match shader.metadata {
                None => after.shader->Some_0.metadata is None,
                Some(metadata) => {
                    &&& after.shader->Some_0.metadata is Some
                    &&& after.shader->Some_0.metadata->Some_0.still_image == metadata.still_image
                    &&& after.shader->Some_0.metadata->Some_0.sliders@ == all_reset(
                        metadata.sliders@,
                    )
                },
            }
        },
    }
}

impl Nuance {
    /// The session with a shader installed: the pipeline is made for the
    /// shader, the globals and the clock start again, the rest is kept.
    pub open spec fn with_shader(self, shader: Shader) -> Nuance {
        Nuance {
            settings: self.settings,
            shader: Some(shader),
            watching: self.watching,
            renderer: Renderer {
                render_size: self.renderer.render_size,
                shader_rpass: Some(
                    ShaderRenderPass {
                        push_constants_size: GLOBALS_SIZE,
                        params_buffer_size: params_size(shader) as u64,
                    },
                ),
            },
            globals: self.globals.restarted(),
            sim_duration: 0,
            paused: self.paused,
            export_data: self.export_data,
        }
    }

    /// A session without a shader, for a drawing area of a size.
    pub fn init(settings: Settings, canvas_size: UVector2, ratio: Single) -> (app: Nuance)
        ensures
            app.shader is None,
            !app.watching,
            !app.paused,
            app.settings == settings,
            app.sim_duration == 0,
            app.renderer == (Renderer { render_size: canvas_size, shader_rpass: None }),
            app.globals == (Globals {
                resolution: canvas_size,
                mouse: UVector2 { x: 0, y: 0 },
                mouse_wheel: Single { bits: 0 },
                ratio,
                time: Single { bits: 0 },
                frame: 0,
            }),
            app.export_data.size == (UVector2 { x: 2048, y: 2048 }),
            app.export_data.format == ImageFormat::Png,
            app.export_data.path@ == "render.png"@,
    {
        Nuance {
            settings,
            shader: None,
            watching: false,
            renderer: Renderer::new(canvas_size),
            globals: Globals {
                resolution: canvas_size,
                mouse: UVector2 { x: 0, y: 0 },
                mouse_wheel: Single::zero(),
                ratio,
                time: Single::zero(),
                frame: 0,
            },
            sim_duration: 0,
            paused: false,
            export_data: ExportData::default(),
        }
    }

    /// Takes the outcome of a load. A shader that was loaded replaces the
    /// current one, and the pipeline to build for it is returned. A load
    /// that failed changes nothing: the shader before stays in place.
    pub fn load(&mut self, outcome: Result<Shader, LoadError>) -> (pass: Option<ShaderRenderPass>)
        ensures
            match outcome {
                Ok(shader) => *final(self) == old(self).with_shader(shader) && pass
                    == final(self).renderer.shader_rpass,
                Err(_) => *final(self) == *old(self) && pass is None,
            },
    {
        match outcome {
            Ok(shader) => {
                let buffer_size: u64 = match &shader.metadata {
                    Some(metadata) => metadata.params_buffer_size(),
                    None => 0,
                };
                let pass = self.renderer.set_shader(GLOBALS_SIZE, buffer_size);
                self.shader = Some(shader);
                self.globals.reset();
                self.sim_duration = 0;
                Some(pass)
            },
            Err(_) => None,
        }
    }

    /// Asks for the current shader to be loaded again.
    pub fn reload(&self) -> (action: Action)
        ensures
            action == (match self.shader {
                Some(shader) => Action::Load(shader.main),
                None => Action::Nothing,
            }),
    {
        match &self.shader {
            Some(shader) => Action::Load(shader.main.clone()),
            None => Action::Nothing,
        }
    }

    /// Starts to watch the file of the current shader.
    pub fn watch(&mut self) -> (action: Action)
        ensures
            action == (match old(self).shader {
                Some(shader) => Action::Watch(shader.main),
                None => Action::Nothing,
            }),
            *final(self) == (Nuance {
                watching: old(self).watching || old(self).shader is Some,
                ..*old(self)
            }),
    {
        match &self.shader {
            Some(shader) => {
                let path = shader.main.clone();
                self.watching = true;
                Action::Watch(path)
            },
            None => Action::Nothing,
        }
    }

    /// Stops watching the file of the current shader. Nothing is asked of
    /// the watcher where nothing is watched.
    pub fn unwatch(&mut self) -> (action: Action)
        ensures
            action == (match old(self).shader {
                Some(shader) => if old(self).watching {
                    Action::Unwatch(shader.main)
                } else {
                    Action::Nothing
                },
                None => Action::Nothing,
            }),
            *final(self) == (Nuance { watching: false, ..*old(self) }),
    {
        let was = self.watching;
        self.watching = false;
        match &self.shader {
            Some(shader) => {
                if was {
                    Action::Unwatch(shader.main.clone())
                } else {
                    Action::Nothing
                }
            },
            None => Action::Nothing,
        }
    }

    /// Takes the notice that a file changed: the watched shader is loaded
    /// again from the same path.
    pub fn file_changed(&self, path: &str) -> (action: Action)
        ensures
            action == (if self.watching && self.shader is Some && self.shader->Some_0.main@
                == path@ {
                Action::Load(self.shader->Some_0.main)
            } else {
                Action::Nothing
            }),
    {
        if !self.watching {
            return Action::Nothing;
        }
        match &self.shader {
            Some(shader) => {
                if same_text(shader.main.as_str(), path) {
                    Action::Load(shader.main.clone())
                } else {
                    Action::Nothing
                }
            },
            None => Action::Nothing,
        }
    }

    /// Restarts the simulation: frame counter, time and mouse wheel go back
    /// to zero.
    pub fn reset_globals(&mut self)
        ensures
            *final(self) == (Nuance {
                globals: old(self).globals.restarted(),
                sim_duration: 0,
                ..*old(self)
            }),
    {
        self.globals.reset();
        self.sim_duration = 0;
    }

    /// Sets every parameter of the current shader back to its default.
    pub fn reset_params(&mut self)
        ensures
            params_reset(*old(self), *final(self)),
    {
        match &mut self.shader {
            Some(shader) => match &mut shader.metadata {
                Some(metadata) => {
                    metadata.reset_params();
                },
                None => {},
            },
            None => {},
        }
    }

    /// Plans the export of one image of the configured size, with the
    /// globals of the moment drawn at that size. `ratio` is the width of the
    /// image divided by its height.
    pub fn export_image(&self, ratio: Single) -> (r: Result<(Globals, ExportPlan), ExportError>)
        ensures
            match export_of(
                self.renderer.shader_rpass,
                self.export_data.size,
                match self.shader {
                    Some(shader) => params_size(shader) as u64,
                    None => 0,
                },
                GLOBALS_SIZE,
            ) {
                Err(e) => r == Err::<(Globals, ExportPlan), ExportError>(e),
                Ok(plan) => r == Ok::<(Globals, ExportPlan), ExportError>(
                    (Globals { resolution: self.export_data.size, ratio, ..self.globals }, plan),
                ),
            },
    {
        let params_len: u64 = match &self.shader {
            Some(shader) => match &shader.metadata {
                Some(metadata) => metadata.params_buffer_size(),
                None => 0,
            },
            None => 0,
        };
        match self.renderer.render_to_buffer(self.export_data.size, params_len, GLOBALS_SIZE) {
            Err(e) => Err(e),
            Ok(plan) => {
                let mut globals = self.globals;
                globals.resolution = self.export_data.size;
                globals.ratio = ratio;
                Ok((globals, plan))
            },
        }
    }

    /// Pauses the simulation, `elapsed` nanoseconds after it started or
    /// went on.
    pub fn pause(&mut self, elapsed: u64)
        ensures
            *final(self) == (Nuance {
                paused: true,
                sim_duration: if old(self).sim_duration + elapsed > u64::MAX {
                    u64::MAX
                } else {
                    (old(self).sim_duration + elapsed) as u64
                },
                ..*old(self)
            }),
    {
        self.sim_duration = if elapsed > u64::MAX - self.sim_duration {
            u64::MAX
        } else {
            self.sim_duration + elapsed
        };
        self.paused = true;
    }

    /// The simulation is paused.
    pub fn is_paused(&self) -> (paused: bool)
        ensures
            paused == self.paused,
    {
        self.paused
    }

    /// Lets the simulation go on.
    pub fn resume(&mut self)
        ensures
            *final(self) == (Nuance { paused: false, ..*old(self) }),
    {
        self.paused = false;
    }

    /// A shader is loaded.
    pub fn shader_loaded(&self) -> (loaded: bool)
        ensures
            loaded == self.shader is Some,
    {
        self.shader.is_some()
    }

    /// The metadata of the current shader.
    pub fn shader_metadata(&self) -> (metadata: Option<&ShaderMetadata>)
        ensures
            match metadata {
                Some(m) => self.shader is Some && self.shader->Some_0.metadata == Some(*m),
                None => self.shader is None || self.shader->Some_0.metadata is None,
            },
    {
        match &self.shader {
            Some(shader) => match &shader.metadata {
                Some(metadata) => Some(metadata),
                None => None,
            },
            None => None,
        }
    }

    /// The parameter buffer of the current shader: empty without
    /// parameters.
    pub fn params_buffer(&self) -> (bytes: Vec<u8>)
        ensures
            bytes@ == (match self.shader {
                Some(shader) => match shader.metadata {
                    Some(metadata) => packed(metadata.sliders@),
                    None => Seq::<u8>::empty(),
                },
                None => Seq::<u8>::empty(),
            }),
    {
        match self.shader_metadata() {
            Some(metadata) => metadata.params_buffer(),
            None => Vec::new(),
        }
    }

    /// Sets the time of the simulation, unless it is paused.
    pub fn update_time(&mut self, time: Single)
        ensures
            *final(self) == (if old(self).paused {
                *old(self)
            } else {
                Nuance { globals: Globals { time, ..old(self).globals }, ..*old(self) }
            }),
    {
        if !self.paused {
            self.globals.time = time;
        }
    }

    /// Counts a frame that was drawn, unless the simulation is paused. The
    /// counter starts again at zero behind its last value.
    pub fn frame_drawn(&mut self)
        ensures
            *final(self) == (if old(self).paused {
                *old(self)
            } else {
                Nuance {
                    globals: Globals {
                        frame: if old(self).globals.frame == u32::MAX {
                            0
                        } else {
                            (old(self).globals.frame + 1) as u32
                        },
                        ..old(self).globals
                    },
                    ..*old(self)
                }
            }),
    {
        if !self.paused {
            self.globals.frame = if self.globals.frame == u32::MAX {
                0
            } else {
                self.globals.frame + 1
            };
        }
    }

    /// Decides about the next frame, `since_last_draw` nanoseconds after
    /// the last one: it is drawn once the time between two frames has
    /// passed.
    pub fn schedule(&self, since_last_draw: u64) -> (next: Schedule)
        ensures
            next == (if since_last_draw >= self.settings.target_framerate {
                Schedule::Redraw
            } else {
                Schedule::Wait((self.settings.target_framerate - since_last_draw) as u64)
            }),
    {
        if since_last_draw >= self.settings.target_framerate {
            Schedule::Redraw
        } else {
            Schedule::Wait(self.settings.target_framerate - since_last_draw)
        }
    }

    /// Carries out a command, as far as the session itself can, and says
    /// what is left for the caller to do. A shader that is loaded in place
    /// of a watched one is no longer watched.
    pub fn run(&mut self, command: Command, ratio: Single) -> (action: Action)
        ensures
            match command {
                Command::Load(path) => action == (if old(self).watching && old(self).shader
                    is Some {
                    Action::Replace { unwatch: old(self).shader->Some_0.main, load: path }
                } else {
                    Action::Load(path)
                }) && *final(self) == (Nuance { watching: false, ..*old(self) }),
                Command::Reload => *final(self) == *old(self) && action == (match old(self).shader {
                    Some(shader) => Action::Load(shader.main),
                    None => Action::Nothing,
                }),
                Command::Watch => action == (match old(self).shader {
                    Some(shader) => Action::Watch(shader.main),
                    None => Action::Nothing,
                }) && *final(self) == (Nuance {
                    watching: old(self).watching || old(self).shader is Some,
                    ..*old(self)
                }),
                Command::Unwatch => action == (match old(self).shader {
                    Some(shader) => if old(self).watching {
                        Action::Unwatch(shader.main)
                    } else {
                        Action::Nothing
                    },
                    None => Action::Nothing,
                }) && *final(self) == (Nuance { watching: false, ..*old(self) }),
                Command::ResetGlobals => action == Action::ResetClock && *final(self) == (Nuance {
                    globals: old(self).globals.restarted(),
                    sim_duration: 0,
                    ..*old(self)
                }),
                Command::ResetParams => action == Action::Nothing && params_reset(
                    *old(self),
                    *final(self),
                ),
                Command::ExportImage => *final(self) == *old(self) && match export_of(
                    old(self).renderer.shader_rpass,
                    old(self).export_data.size,
                    match old(self).shader {
                        Some(shader) => params_size(shader) as u64,
                        None => 0,
                    },
                    GLOBALS_SIZE,
                ) {
                    Err(_) => action == Action::Nothing,
                    Ok(plan) => action == Action::Export(
                        Globals {
                            resolution: old(self).export_data.size,
                            ratio,
                            ..old(self).globals
                        },
                        plan,
                    ),
                },
                Command::Exit => action == Action::Exit && *final(self) == *old(self),
            },
    {
        match command {
            Command::Load(path) => match self.unwatch() {
                Action::Unwatch(watched) => Action::Replace { unwatch: watched, load: path },
                _ => Action::Load(path),
            },
            Command::Reload => self.reload(),
            Command::Watch => self.watch(),
            Command::Unwatch => self.unwatch(),
            Command::ResetGlobals => {
                self.reset_globals();
                Action::ResetClock
            },
            Command::ResetParams => {
                self.reset_params();
                Action::Nothing
            },
            Command::ExportImage => match self.export_image(ratio) {
                Ok((globals, plan)) => Action::Export(globals, plan),
                Err(_) => Action::Nothing,
            },
            Command::Exit => Action::Exit,
        }
    }
}

/// The parameters of the loaded shader, with every value it may have been
/// given since.
pub open spec fn loaded_sliders(app: Nuance) -> Seq<Slider> {
    if app.shader is Some && app.shader->Some_0.metadata is Some {
        app.shader->Some_0.metadata->Some_0.sliders@
    } else {
        Seq::empty()
    }
}

/// The pipeline that a load installs is made for the parameters of the
/// loaded shader: the frames that follow are planned, never refused, as long
/// as the parameters keep their kinds, whatever values they are given.
pub proof fn lemma_loaded_shader_renders(
    app: Nuance,
    shader: Shader,
    later: Seq<Slider>,
    should_render: bool,
)
    requires
        params_size(shader) <= u64::MAX,
        same_kinds(loaded_sliders(app.with_shader(shader)), later),
    ensures
        app.with_shader(shader).renderer.rendered(packed(later).len() as u64, should_render)
            == Ok::<FramePlan, RenderError>(
            frame_of(app.with_shader(shader).renderer.shader_rpass, should_render),
        ),
        frame_of(app.with_shader(shader).renderer.shader_rpass, should_render).draw
            == should_render,
        frame_of(app.with_shader(shader).renderer.shader_rpass, should_render).write_params == (
        params_size(shader) > 0),
{
    lemma_packed_len(later);
    lemma_same_kinds_same_layout(loaded_sliders(app.with_shader(shader)), later);
    assert(layout_end(Seq::<Slider>::empty()) == 0);
}

} // verus!
