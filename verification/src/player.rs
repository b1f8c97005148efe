//! The boundary's entry points: operations on a player named by its handle.
//!
//! Every operation first validates the handle, then checks and decodes its
//! arguments, then lets the engine do its part, and last turns the engine's
//! answer into a status and output parameters. Output parameters are written
//! on success only. The engine's part is a function that the caller hands in,
//! so the same rules serve whatever engine stands behind the boundary; what
//! follows the engine's answer stands in functions of its own that take the
//! answer as an argument.

use vstd::prelude::*;

use crate::codec::{
    decoded, encodable, encoded, is_native_string, to_mut_i8, to_native_string, to_string,
    DecodeError, EncodeError,
};
use crate::config::{Config, DotLottieConfig};
use crate::float32::Float32;
use crate::listener::{all_known, bits_of, ListenerType};
use crate::marker::{markers_encodable, represent_all, DotLottieMarker, Marker};
use crate::observer::{
    invocations_of, notify_all, state_machine_invocations_of, state_machine_notify_all,
    state_machine_subscribe, state_machine_unsubscribe, subscribe, unsubscribe, with, without,
    Invocation, Observer, PlayerEvent, StateMachineEvent, StateMachineObserver,
};
use crate::registry::{Handle, Registry};
use crate::status::{
    exit_status, to_exit_status, BUFFER_TOO_SMALL, ENCODING_ERROR, INTERNAL_ERROR,
    INVALID_ARGUMENT, INVALID_HANDLE, SUCCESS,
};

verus! {

/// One engine instance with the callback tables subscribed to it.
pub struct Player<T> {
    pub engine: T,
    pub observers: Vec<Observer>,
    pub state_machine_observers: Vec<StateMachineObserver>,
}

/// The text of a native string argument, where the caller passed one.
pub open spec fn argument_text(value: Option<&[u8]>) -> Option<Seq<char>> {
    match value {
        Some(bytes) => if is_native_string(bytes@) {
            Some(decoded(bytes@))
        } else {
            None
        },
        None => None,
    }
}

/// The status for a text argument that cannot be decoded: a null pointer is
/// an invalid argument, anything else an encoding error.
pub open spec fn argument_error(value: Option<&[u8]>) -> i32 {
    if value is None {
        INVALID_ARGUMENT
    } else {
        ENCODING_ERROR
    }
}

/// The status of an operation that was given a null output pointer: the
/// handle is judged first.
pub open spec fn null_output_status<T>(registry: Registry<Player<T>>, ptr: Handle) -> i32 {
    if registry@.dom().contains(ptr) {
        INVALID_ARGUMENT
    } else {
        INVALID_HANDLE
    }
}

/// Decodes a text argument, or gives the status that rejects it.
pub fn decode_argument(value: Option<&[u8]>) -> (result: Result<String, i32>)
    ensures
        match argument_text(value) {
            Some(text) => result matches Ok(s) && s@ == text,
            None => result == Err::<String, i32>(argument_error(value)),
        },
{
    match to_string(value) {
        Ok(text) => Ok(text),
        Err(DecodeError::NullPointer) => Err(INVALID_ARGUMENT),
        Err(DecodeError::InvalidEncoding) => Err(ENCODING_ERROR),
    }
}

/// Runs `op` on the engine that `ptr` names and returns its status, or
/// rejects the handle without running anything.
pub fn exec_dotlottie_player_op<T, Op: Fn(&T) -> i32>(
    registry: &Registry<Player<T>>,
    ptr: Handle,
    op: Op,
) -> (status: i32)
    requires
        forall|engine: &T| op.requires((engine,)),
    ensures
        !registry@.dom().contains(ptr) ==> status == INVALID_HANDLE,
        registry@.dom().contains(ptr) ==> op.ensures((&registry@[ptr].engine,), status),
{
    match registry.get(ptr) {
        Some(player) => op(&player.engine),
        None => INVALID_HANDLE,
    }
}

/// Creates a player from the caller's configuration record and issues the
/// handle that names it.
///
/// Returns the null handle, without creating anything, for a null record
/// pointer, for a record with an unknown mode or fit, and when the registry
/// is exhausted.
pub fn new_dotlottie_player<T, F: FnOnce(Config) -> T>(
    registry: &mut Registry<Player<T>>,
    ptr: Option<&DotLottieConfig>,
    create: F,
) -> (handle: Handle)
    requires
        old(registry).wf(),
        forall|config: Config| create.requires((config,)),
    ensures
        final(registry).wf(),
        final(registry).retired() == old(registry).retired(),
        old(registry).slot_count() <= final(registry).slot_count() <= old(registry).slot_count()
            + 1,
        handle.is_null() <==> (ptr is None || !ptr->0.has_known_enums() || old(
            registry,
        ).is_exhausted()),
        handle.is_null() ==> final(registry)@ == old(registry)@,
        !handle.is_null() ==> {
            &&& !old(registry)@.dom().contains(handle)
            &&& !old(registry).retired().contains(handle)
            &&& final(registry)@.dom() == old(registry)@.dom().insert(handle)
            &&& final(registry)@.remove(handle) == old(registry)@
            &&& final(registry)@[handle].observers@.len() == 0
            &&& final(registry)@[handle].state_machine_observers@.len() == 0
            &&& exists|config: Config|
                ptr->0.maps_to(config) && create.ensures(
                    (config,),
                    final(registry)@[handle].engine,
                )
        },
{
    let record = match ptr {
        Some(record) => record,
        None => {
            return Handle::null();
        },
    };
    let config = match record.to_config() {
        Ok(config) => config,
        Err(_) => {
            return Handle::null();
        },
    };
    if registry.check_exhausted() {
        return Handle::null();
    }
    let engine = create(config);
    let player = Player {
        engine,
        observers: Vec::new(),
        state_machine_observers: Vec::new(),
    };
    let handle = registry.create(player);
    proof {
        assert(final(registry)@.remove(handle) =~= old(registry)@);
        assert(final(registry)@.dom() =~= old(registry)@.dom().insert(handle));
    }
    handle
}

/// Destroys the player that `ptr` names and hands back its engine. The
/// handle is retired: no later operation accepts it.
pub fn dotlottie_player_destroy<T>(registry: &mut Registry<Player<T>>, ptr: Handle) -> (engine:
    Option<T>)
    requires
        old(registry).wf(),
    ensures
        final(registry).wf(),
        final(registry).slot_count() == old(registry).slot_count(),
        !final(registry)@.dom().contains(ptr),
        old(registry)@.dom().contains(ptr) ==> {
            &&& engine == Some(old(registry)@[ptr].engine)
            &&& final(registry)@ == old(registry)@.remove(ptr)
            &&& final(registry).retired() == old(registry).retired().insert(ptr)
        },
        !old(registry)@.dom().contains(ptr) ==> {
            &&& engine is None
            &&& final(registry)@ == old(registry)@
            &&& final(registry).retired() == old(registry).retired()
        },
{
    match registry.destroy(ptr) {
        Some(player) => Some(player.engine),
        None => None,
    }
}

/// A handle that was destroyed is rejected ever after: whatever is created
/// or destroyed later, it names no player, so every operation answers it
/// with `INVALID_HANDLE`.
pub proof fn lemma_destroyed_handle_stays_invalid<T>(
    destroyed: Registry<Player<T>>,
    later: Registry<Player<T>>,
    ptr: Handle,
)
    requires
        destroyed.retired().contains(ptr),
        destroyed.retired().subset_of(later.retired()),
    ensures
        !later@.dom().contains(ptr),
        null_output_status(later, ptr) == INVALID_HANDLE,
{
    later.lemma_retired_not_live(ptr);
}

/// `status` is the outcome of a command on the player that `ptr` names: the
/// handle's rejection, or the exit status of what `command` answered.
pub open spec fn command_outcome<T, F: Fn(&T) -> bool>(
    registry: Registry<Player<T>>,
    ptr: Handle,
    command: F,
    status: i32,
) -> bool {
    if registry@.dom().contains(ptr) {
        exists|ok: bool|
            command.ensures((&registry@[ptr].engine,), ok) && status == exit_status(ok)
    } else {
        status == INVALID_HANDLE
    }
}

fn run_command<T, F: Fn(&T) -> bool>(registry: &Registry<Player<T>>, ptr: Handle, command: F) -> (status:
    i32)
    requires
        forall|engine: &T| command.requires((engine,)),
    ensures
        command_outcome(*registry, ptr, command, status),
{
    match registry.get(ptr) {
        Some(player) => to_exit_status(command(&player.engine)),
        None => INVALID_HANDLE,
    }
}

/// Starts playback.
pub fn dotlottie_play<T, F: Fn(&T) -> bool>(
    registry: &Registry<Player<T>>,
    ptr: Handle,
    play: F,
) -> (status: i32)
    requires
        forall|engine: &T| play.requires((engine,)),
    ensures
        command_outcome(*registry, ptr, play, status),
{
    run_command(registry, ptr, play)
}

/// Pauses playback.
pub fn dotlottie_pause<T, F: Fn(&T) -> bool>(
    registry: &Registry<Player<T>>,
    ptr: Handle,
    pause: F,
) -> (status: i32)
    requires
        forall|engine: &T| pause.requires((engine,)),
    ensures
        command_outcome(*registry, ptr, pause, status),
{
    run_command(registry, ptr, pause)
}

/// Stops playback.
pub fn dotlottie_stop<T, F: Fn(&T) -> bool>(
    registry: &Registry<Player<T>>,
    ptr: Handle,
    stop: F,
) -> (status: i32)
    requires
        forall|engine: &T| stop.requires((engine,)),
    ensures
        command_outcome(*registry, ptr, stop, status),
{
    run_command(registry, ptr, stop)
}

/// Renders the current frame.
pub fn dotlottie_render<T, F: Fn(&T) -> bool>(
    registry: &Registry<Player<T>>,
    ptr: Handle,
    render: F,
) -> (status: i32)
    requires
        forall|engine: &T| render.requires((engine,)),
    ensures
        command_outcome(*registry, ptr, render, status),
{
    run_command(registry, ptr, render)
}

/// Starts the loaded state machine.
pub fn dotlottie_start_state_machine<T, F: Fn(&T) -> bool>(
    registry: &Registry<Player<T>>,
    ptr: Handle,
    start_state_machine: F,
) -> (status: i32)
    requires
        forall|engine: &T| start_state_machine.requires((engine,)),
    ensures
        command_outcome(*registry, ptr, start_state_machine, status),
{
    run_command(registry, ptr, start_state_machine)
}

/// Stops the running state machine.
pub fn dotlottie_stop_state_machine<T, F: Fn(&T) -> bool>(
    registry: &Registry<Player<T>>,
    ptr: Handle,
    stop_state_machine: F,
) -> (status: i32)
    requires
        forall|engine: &T| stop_state_machine.requires((engine,)),
    ensures
        command_outcome(*registry, ptr, stop_state_machine, status),
{
    run_command(registry, ptr, stop_state_machine)
}

/// `status` is the outcome of a command that takes one number.
pub open spec fn number_command_outcome<T, F: Fn(&T, Float32) -> bool>(
    registry: Registry<Player<T>>,
    ptr: Handle,
    no: Float32,
    command: F,
    status: i32,
) -> bool {
    if registry@.dom().contains(ptr) {
        exists|ok: bool|
            command.ensures((&registry@[ptr].engine, no), ok) && status == exit_status(ok)
    } else {
        status == INVALID_HANDLE
    }
}

fn run_number_command<T, F: Fn(&T, Float32) -> bool>(
    registry: &Registry<Player<T>>,
    ptr: Handle,
    no: Float32,
    command: F,
) -> (status: i32)
    requires
        forall|engine: &T, x: Float32| command.requires((engine, x)),
    ensures
        number_command_outcome(*registry, ptr, no, command, status),
{
    match registry.get(ptr) {
        Some(player) => to_exit_status(command(&player.engine, no)),
        None => INVALID_HANDLE,
    }
}

/// Sets the current frame.
pub fn dotlottie_set_frame<T, F: Fn(&T, Float32) -> bool>(
    registry: &Registry<Player<T>>,
    ptr: Handle,
    no: Float32,
    set_frame: F,
) -> (status: i32)
    requires
        forall|engine: &T, x: Float32| set_frame.requires((engine, x)),
    ensures
        number_command_outcome(*registry, ptr, no, set_frame, status),
{
    run_number_command(registry, ptr, no, set_frame)
}

/// Moves playback to a frame.
pub fn dotlottie_seek<T, F: Fn(&T, Float32) -> bool>(
    registry: &Registry<Player<T>>,
    ptr: Handle,
    no: Float32,
    seek: F,
) -> (status: i32)
    requires
        forall|engine: &T, x: Float32| seek.requires((engine, x)),
    ensures
        number_command_outcome(*registry, ptr, no, seek, status),
{
    run_number_command(registry, ptr, no, seek)
}

/// Clears the canvas. The engine has no answer to give, so a live handle
/// means success.
pub fn dotlottie_clear<T, F: Fn(&T)>(registry: &Registry<Player<T>>, ptr: Handle, clear: F) -> (status:
    i32)
    requires
        forall|engine: &T| clear.requires((engine,)),
    ensures
        registry@.dom().contains(ptr) ==> status == SUCCESS && clear.ensures(
            (&registry@[ptr].engine,),
            (),
        ),
        !registry@.dom().contains(ptr) ==> status == INVALID_HANDLE,
{
    match registry.get(ptr) {
        Some(player) => {
            clear(&player.engine);
            SUCCESS
        },
        None => INVALID_HANDLE,
    }
}

/// Resizes the canvas.
pub fn dotlottie_resize<T, F: Fn(&T, u32, u32) -> bool>(
    registry: &Registry<Player<T>>,
    ptr: Handle,
    width: u32,
    height: u32,
    resize: F,
) -> (status: i32)
    requires
        forall|engine: &T, w: u32, h: u32| resize.requires((engine, w, h)),
    ensures
        registry@.dom().contains(ptr) ==> exists|ok: bool|
            resize.ensures((&registry@[ptr].engine, width, height), ok) && status == exit_status(
                ok,
            ),
        !registry@.dom().contains(ptr) ==> status == INVALID_HANDLE,
{
    match registry.get(ptr) {
        Some(player) => to_exit_status(resize(&player.engine, width, height)),
        None => INVALID_HANDLE,
    }
}

/// Sets the part of the canvas that is drawn.
pub fn dotlottie_set_viewport<T, F: Fn(&T, i32, i32, i32, i32) -> bool>(
    registry: &Registry<Player<T>>,
    ptr: Handle,
    x: i32,
    y: i32,
    w: i32,
    h: i32,
    set_viewport: F,
) -> (status: i32)
    requires
        forall|engine: &T, a: i32, b: i32, c: i32, d: i32|
            set_viewport.requires((engine, a, b, c, d)),
    ensures
        registry@.dom().contains(ptr) ==> exists|ok: bool|
            set_viewport.ensures((&registry@[ptr].engine, x, y, w, h), ok) && status
                == exit_status(ok),
        !registry@.dom().contains(ptr) ==> status == INVALID_HANDLE,
{
    match registry.get(ptr) {
        Some(player) => to_exit_status(set_viewport(&player.engine, x, y, w, h)),
        None => INVALID_HANDLE,
    }
}

/// Loads an animation file from its bytes. A null data pointer is an
/// invalid argument.
pub fn dotlottie_player_load_dotlottie_data<T, F: Fn(&T, &[u8], u32, u32) -> bool>(
    registry: &Registry<Player<T>>,
    ptr: Handle,
    file_data: Option<&[u8]>,
    width: u32,
    height: u32,
    load_dotlottie_data: F,
) -> (status: i32)
    requires
        forall|engine: &T, data: &[u8], w: u32, h: u32|
            load_dotlottie_data.requires((engine, data, w, h)),
    ensures
        !registry@.dom().contains(ptr) ==> status == INVALID_HANDLE,
        registry@.dom().contains(ptr) ==> match file_data {
            Some(data) => exists|ok: bool|
                load_dotlottie_data.ensures((&registry@[ptr].engine, data, width, height), ok)
                    && status == exit_status(ok),
            None => status == INVALID_ARGUMENT,
        },
{
    let player = match registry.get(ptr) {
        Some(player) => player,
        None => {
            return INVALID_HANDLE;
        },
    };
    match file_data {
        Some(data) => to_exit_status(load_dotlottie_data(&player.engine, data, width, height)),
        None => INVALID_ARGUMENT,
    }
}

/// `status` is the outcome of a loading command that takes a text and the
/// canvas size: the handle's rejection, the text's rejection, or the exit
/// status of what `load` answered to the decoded text.
pub open spec fn load_outcome<T, F: Fn(&T, &str, u32, u32) -> bool>(
    registry: Registry<Player<T>>,
    ptr: Handle,
    text: Option<&[u8]>,
    width: u32,
    height: u32,
    load: F,
    status: i32,
) -> bool {
    if !registry@.dom().contains(ptr) {
        status == INVALID_HANDLE
    } else {
        match argument_text(text) {
            Some(decoded_text) => exists|s: &str, ok: bool|
                s@ == decoded_text && load.ensures((&registry@[ptr].engine, s, width, height), ok)
                    && status == exit_status(ok),
            None => status == argument_error(text),
        }
    }
}

fn run_load<T, F: Fn(&T, &str, u32, u32) -> bool>(
    registry: &Registry<Player<T>>,
    ptr: Handle,
    text: Option<&[u8]>,
    width: u32,
    height: u32,
    load: F,
) -> (status: i32)
    requires
        forall|engine: &T, s: &str, w: u32, h: u32| load.requires((engine, s, w, h)),
    ensures
        load_outcome(*registry, ptr, text, width, height, load, status),
{
    let player = match registry.get(ptr) {
        Some(player) => player,
        None => {
            return INVALID_HANDLE;
        },
    };
    match decode_argument(text) {
        Ok(decoded_text) => to_exit_status(
            load(&player.engine, decoded_text.as_str(), width, height),
        ),
        Err(status) => status,
    }
}

/// Loads an animation from its text.
pub fn dotlottie_player_load_animation_data<T, F: Fn(&T, &str, u32, u32) -> bool>(
    registry: &Registry<Player<T>>,
    ptr: Handle,
    animation_data: Option<&[u8]>,
    width: u32,
    height: u32,
    load_animation_data: F,
) -> (status: i32)
    requires
        forall|engine: &T, s: &str, w: u32, h: u32| load_animation_data.requires((engine, s, w, h)),
    ensures
        load_outcome(*registry, ptr, animation_data, width, height, load_animation_data, status),
{
    run_load(registry, ptr, animation_data, width, height, load_animation_data)
}

/// Loads an animation from the file at a path.
pub fn dotlottie_player_load_animation_path<T, F: Fn(&T, &str, u32, u32) -> bool>(
    registry: &Registry<Player<T>>,
    ptr: Handle,
    animation_path: Option<&[u8]>,
    width: u32,
    height: u32,
    load_animation_path: F,
) -> (status: i32)
    requires
        forall|engine: &T, s: &str, w: u32, h: u32| load_animation_path.requires((engine, s, w, h)),
    ensures
        load_outcome(*registry, ptr, animation_path, width, height, load_animation_path, status),
{
    run_load(registry, ptr, animation_path, width, height, load_animation_path)
}

/// Loads one animation of the loaded file, by its id.
pub fn dotlottie_player_load_animation<T, F: Fn(&T, &str, u32, u32) -> bool>(
    registry: &Registry<Player<T>>,
    ptr: Handle,
    animation_id: Option<&[u8]>,
    width: u32,
    height: u32,
    load_animation: F,
) -> (status: i32)
    requires
        forall|engine: &T, s: &str, w: u32, h: u32| load_animation.requires((engine, s, w, h)),
    ensures
        load_outcome(*registry, ptr, animation_id, width, height, load_animation, status),
{
    run_load(registry, ptr, animation_id, width, height, load_animation)
}

/// `status` is the outcome of a command that takes one text: the handle's
/// rejection, the text's rejection, or the exit status of what `command`
/// answered to the decoded text.
pub open spec fn text_command_outcome<T, F: Fn(&T, &str) -> bool>(
    registry: Registry<Player<T>>,
    ptr: Handle,
    text: Option<&[u8]>,
    command: F,
    status: i32,
) -> bool {
    if !registry@.dom().contains(ptr) {
        status == INVALID_HANDLE
    } else {
        match argument_text(text) {
            Some(decoded_text) => exists|s: &str, ok: bool|
                s@ == decoded_text && command.ensures((&registry@[ptr].engine, s), ok) && status
                    == exit_status(ok),
            None => status == argument_error(text),
        }
    }
}

fn run_text_command<T, F: Fn(&T, &str) -> bool>(
    registry: &Registry<Player<T>>,
    ptr: Handle,
    text: Option<&[u8]>,
    command: F,
) -> (status: i32)
    requires
        forall|engine: &T, s: &str| command.requires((engine, s)),
    ensures
        text_command_outcome(*registry, ptr, text, command, status),
{
    let player = match registry.get(ptr) {
        Some(player) => player,
        None => {
            return INVALID_HANDLE;
        },
    };
    match decode_argument(text) {
        Ok(decoded_text) => to_exit_status(command(&player.engine, decoded_text.as_str())),
        Err(status) => status,
    }
}

/// Loads a theme of the loaded file, by its id.
pub fn dotlottie_load_theme<T, F: Fn(&T, &str) -> bool>(
    registry: &Registry<Player<T>>,
    ptr: Handle,
    theme_id: Option<&[u8]>,
    load_theme: F,
) -> (status: i32)
    requires
        forall|engine: &T, s: &str| load_theme.requires((engine, s)),
    ensures
        text_command_outcome(*registry, ptr, theme_id, load_theme, status),
{
    run_text_command(registry, ptr, theme_id, load_theme)
}

/// Loads a theme from its text.
pub fn dotlottie_load_theme_data<T, F: Fn(&T, &str) -> bool>(
    registry: &Registry<Player<T>>,
    ptr: Handle,
    theme_data: Option<&[u8]>,
    load_theme_data: F,
) -> (status: i32)
    requires
        forall|engine: &T, s: &str| load_theme_data.requires((engine, s)),
    ensures
        text_command_outcome(*registry, ptr, theme_data, load_theme_data, status),
{
    run_text_command(registry, ptr, theme_data, load_theme_data)
}

/// Loads a state machine of the loaded file, by its id.
pub fn dotlottie_load_state_machine<T, F: Fn(&T, &str) -> bool>(
    registry: &Registry<Player<T>>,
    ptr: Handle,
    state_machine_id: Option<&[u8]>,
    load_state_machine: F,
) -> (status: i32)
    requires
        forall|engine: &T, s: &str| load_state_machine.requires((engine, s)),
    ensures
        text_command_outcome(*registry, ptr, state_machine_id, load_state_machine, status),
{
    run_text_command(registry, ptr, state_machine_id, load_state_machine)
}

/// Loads a state machine from its definition.
pub fn dotlottie_load_state_machine_data<T, F: Fn(&T, &str) -> bool>(
    registry: &Registry<Player<T>>,
    ptr: Handle,
    state_machine_definition: Option<&[u8]>,
    load_state_machine_data: F,
) -> (status: i32)
    requires
        forall|engine: &T, s: &str| load_state_machine_data.requires((engine, s)),
    ensures
        text_command_outcome(*registry, ptr, state_machine_definition, load_state_machine_data, status),
{
    run_text_command(registry, ptr, state_machine_definition, load_state_machine_data)
}

/// Sets a numeric input of the state machine.
pub fn dotlottie_set_state_machine_numeric_context<T, F: Fn(&T, &str, Float32) -> bool>(
    registry: &Registry<Player<T>>,
    ptr: Handle,
    key: Option<&[u8]>,
    value: Float32,
    set_state_machine_numeric_context: F,
) -> (status: i32)
    requires
        forall|engine: &T, k: &str, v: Float32|
            set_state_machine_numeric_context.requires((engine, k, v)),
    ensures
        !registry@.dom().contains(ptr) ==> status == INVALID_HANDLE,
        registry@.dom().contains(ptr) ==> match argument_text(key) {
            Some(decoded_key) => exists|k: &str, ok: bool|
                k@ == decoded_key && set_state_machine_numeric_context.ensures(
                    (&registry@[ptr].engine, k, value),
                    ok,
                ) && status == exit_status(ok),
            None => status == argument_error(key),
        },
{
    let player = match registry.get(ptr) {
        Some(player) => player,
        None => {
            return INVALID_HANDLE;
        },
    };
    match decode_argument(key) {
        Ok(decoded_key) => to_exit_status(
            set_state_machine_numeric_context(&player.engine, decoded_key.as_str(), value),
        ),
        Err(status) => status,
    }
}

/// Sets a text input of the state machine. The key is judged before the
/// value.
pub fn dotlottie_set_state_machine_string_context<T, F: Fn(&T, &str, &str) -> bool>(
    registry: &Registry<Player<T>>,
    ptr: Handle,
    key: Option<&[u8]>,
    value: Option<&[u8]>,
    set_state_machine_string_context: F,
) -> (status: i32)
    requires
        forall|engine: &T, k: &str, v: &str|
            set_state_machine_string_context.requires((engine, k, v)),
    ensures
        !registry@.dom().contains(ptr) ==> status == INVALID_HANDLE,
        registry@.dom().contains(ptr) ==> match (argument_text(key), argument_text(value)) {
            (Some(decoded_key), Some(decoded_value)) => exists|k: &str, v: &str, ok: bool|
                k@ == decoded_key && v@ == decoded_value
                    && set_state_machine_string_context.ensures(
                    (&registry@[ptr].engine, k, v),
                    ok,
                ) && status == exit_status(ok),
            (None, _) => status == argument_error(key),
            (Some(_), None) => status == argument_error(value),
        },
{
    let player = match registry.get(ptr) {
        Some(player) => player,
        None => {
            return INVALID_HANDLE;
        },
    };
    let decoded_key = match decode_argument(key) {
        Ok(text) => text,
        Err(status) => {
            return status;
        },
    };
    let decoded_value = match decode_argument(value) {
        Ok(text) => text,
        Err(status) => {
            return status;
        },
    };
    to_exit_status(
        set_state_machine_string_context(
            &player.engine,
            decoded_key.as_str(),
            decoded_value.as_str(),
        ),
    )
}

/// Sets a boolean input of the state machine.
pub fn dotlottie_set_state_machine_boolean_context<T, F: Fn(&T, &str, bool) -> bool>(
    registry: &Registry<Player<T>>,
    ptr: Handle,
    key: Option<&[u8]>,
    value: bool,
    set_state_machine_boolean_context: F,
) -> (status: i32)
    requires
        forall|engine: &T, k: &str, v: bool|
            set_state_machine_boolean_context.requires((engine, k, v)),
    ensures
        !registry@.dom().contains(ptr) ==> status == INVALID_HANDLE,
        registry@.dom().contains(ptr) ==> match argument_text(key) {
            Some(decoded_key) => exists|k: &str, ok: bool|
                k@ == decoded_key && set_state_machine_boolean_context.ensures(
                    (&registry@[ptr].engine, k, value),
                    ok,
                ) && status == exit_status(ok),
            None => status == argument_error(key),
        },
{
    let player = match registry.get(ptr) {
        Some(player) => player,
        None => {
            return INVALID_HANDLE;
        },
    };
    match decode_argument(key) {
        Ok(decoded_key) => to_exit_status(
            set_state_machine_boolean_context(&player.engine, decoded_key.as_str(), value),
        ),
        Err(status) => status,
    }
}

/// `status` and `after` are the outcome of reading one value into an output
/// parameter that held `before`: on a live handle the parameter holds what
/// `read` answered, on any other it is untouched.
pub open spec fn read_outcome<T, V, F: Fn(&T) -> V>(
    registry: Registry<Player<T>>,
    ptr: Handle,
    read: F,
    before: V,
    after: V,
    status: i32,
) -> bool {
    if registry@.dom().contains(ptr) {
        status == SUCCESS && read.ensures((&registry@[ptr].engine,), after)
    } else {
        status == INVALID_HANDLE && after == before
    }
}

fn read_value<T, V, F: Fn(&T) -> V>(
    registry: &Registry<Player<T>>,
    ptr: Handle,
    result: Option<&mut V>,
    read: F,
) -> (status: i32)
    requires
        forall|engine: &T| read.requires((engine,)),
    ensures
        result matches Some(place) ==> read_outcome(
            *registry,
            ptr,
            read,
            *place,
            *final(place),
            status,
        ),
        result is None ==> status == null_output_status(*registry, ptr),
{
    let player = match registry.get(ptr) {
        Some(player) => player,
        None => {
            return INVALID_HANDLE;
        },
    };
    match result {
        Some(place) => {
            *place = read(&player.engine);
            SUCCESS
        },
        None => INVALID_ARGUMENT,
    }
}

/// Reads the address of the frame buffer.
pub fn dotlottie_buffer_ptr<T, F: Fn(&T) -> usize>(
    registry: &Registry<Player<T>>,
    ptr: Handle,
    result: Option<&mut usize>,
    buffer: F,
) -> (status: i32)
    requires
        forall|engine: &T| buffer.requires((engine,)),
    ensures
        result matches Some(place) ==> read_outcome(
            *registry,
            ptr,
            buffer,
            *place,
            *final(place),
            status,
        ),
        result is None ==> status == null_output_status(*registry, ptr),
{
    read_value(registry, ptr, result, buffer)
}

/// Reads the length of the frame buffer.
pub fn dotlottie_buffer_len<T, F: Fn(&T) -> u64>(
    registry: &Registry<Player<T>>,
    ptr: Handle,
    result: Option<&mut u64>,
    buffer_len: F,
) -> (status: i32)
    requires
        forall|engine: &T| buffer_len.requires((engine,)),
    ensures
        result matches Some(place) ==> read_outcome(
            *registry,
            ptr,
            buffer_len,
            *place,
            *final(place),
            status,
        ),
        result is None ==> status == null_output_status(*registry, ptr),
{
    read_value(registry, ptr, result, buffer_len)
}

/// Reads the number of frames of the animation.
pub fn dotlottie_total_frames<T, F: Fn(&T) -> Float32>(
    registry: &Registry<Player<T>>,
    ptr: Handle,
    result: Option<&mut Float32>,
    total_frames: F,
) -> (status: i32)
    requires
        forall|engine: &T| total_frames.requires((engine,)),
    ensures
        result matches Some(place) ==> read_outcome(
            *registry,
            ptr,
            total_frames,
            *place,
            *final(place),
            status,
        ),
        result is None ==> status == null_output_status(*registry, ptr),
{
    read_value(registry, ptr, result, total_frames)
}

/// Reads the duration of the animation.
pub fn dotlottie_duration<T, F: Fn(&T) -> Float32>(
    registry: &Registry<Player<T>>,
    ptr: Handle,
    result: Option<&mut Float32>,
    duration: F,
) -> (status: i32)
    requires
        forall|engine: &T| duration.requires((engine,)),
    ensures
        result matches Some(place) ==> read_outcome(
            *registry,
            ptr,
            duration,
            *place,
            *final(place),
            status,
        ),
        result is None ==> status == null_output_status(*registry, ptr),
{
    read_value(registry, ptr, result, duration)
}

/// Reads the number of the current frame.
pub fn dotlottie_current_frame<T, F: Fn(&T) -> Float32>(
    registry: &Registry<Player<T>>,
    ptr: Handle,
    result: Option<&mut Float32>,
    current_frame: F,
) -> (status: i32)
    requires
        forall|engine: &T| current_frame.requires((engine,)),
    ensures
        result matches Some(place) ==> read_outcome(
            *registry,
            ptr,
            current_frame,
            *place,
            *final(place),
            status,
        ),
        result is None ==> status == null_output_status(*registry, ptr),
{
    read_value(registry, ptr, result, current_frame)
}

/// Reads the count of loops completed.
pub fn dotlottie_loop_count<T, F: Fn(&T) -> u32>(
    registry: &Registry<Player<T>>,
    ptr: Handle,
    result: Option<&mut u32>,
    loop_count: F,
) -> (status: i32)
    requires
        forall|engine: &T| loop_count.requires((engine,)),
    ensures
        result matches Some(place) ==> read_outcome(
            *registry,
            ptr,
            loop_count,
            *place,
            *final(place),
            status,
        ),
        result is None ==> status == null_output_status(*registry, ptr),
{
    read_value(registry, ptr, result, loop_count)
}

/// Reads whether an animation is loaded.
pub fn dotlottie_is_loaded<T, F: Fn(&T) -> bool>(
    registry: &Registry<Player<T>>,
    ptr: Handle,
    result: Option<&mut bool>,
    is_loaded: F,
) -> (status: i32)
    requires
        forall|engine: &T| is_loaded.requires((engine,)),
    ensures
        result matches Some(place) ==> read_outcome(
            *registry,
            ptr,
            is_loaded,
            *place,
            *final(place),
            status,
        ),
        result is None ==> status == null_output_status(*registry, ptr),
{
    read_value(registry, ptr, result, is_loaded)
}

/// Reads whether playback is running.
pub fn dotlottie_is_playing<T, F: Fn(&T) -> bool>(
    registry: &Registry<Player<T>>,
    ptr: Handle,
    result: Option<&mut bool>,
    is_playing: F,
) -> (status: i32)
    requires
        forall|engine: &T| is_playing.requires((engine,)),
    ensures
        result matches Some(place) ==> read_outcome(
            *registry,
            ptr,
            is_playing,
            *place,
            *final(place),
            status,
        ),
        result is None ==> status == null_output_status(*registry, ptr),
{
    read_value(registry, ptr, result, is_playing)
}

/// Reads whether playback is paused.
pub fn dotlottie_is_paused<T, F: Fn(&T) -> bool>(
    registry: &Registry<Player<T>>,
    ptr: Handle,
    result: Option<&mut bool>,
    is_paused: F,
) -> (status: i32)
    requires
        forall|engine: &T| is_paused.requires((engine,)),
    ensures
        result matches Some(place) ==> read_outcome(
            *registry,
            ptr,
            is_paused,
            *place,
            *final(place),
            status,
        ),
        result is None ==> status == null_output_status(*registry, ptr),
{
    read_value(registry, ptr, result, is_paused)
}

/// Reads whether playback is stopped.
pub fn dotlottie_is_stopped<T, F: Fn(&T) -> bool>(
    registry: &Registry<Player<T>>,
    ptr: Handle,
    result: Option<&mut bool>,
    is_stopped: F,
) -> (status: i32)
    requires
        forall|engine: &T| is_stopped.requires((engine,)),
    ensures
        result matches Some(place) ==> read_outcome(
            *registry,
            ptr,
            is_stopped,
            *place,
            *final(place),
            status,
        ),
        result is None ==> status == null_output_status(*registry, ptr),
{
    read_value(registry, ptr, result, is_stopped)
}

/// Reads whether playback has reached its end.
pub fn dotlottie_is_complete<T, F: Fn(&T) -> bool>(
    registry: &Registry<Player<T>>,
    ptr: Handle,
    result: Option<&mut bool>,
    is_complete: F,
) -> (status: i32)
    requires
        forall|engine: &T| is_complete.requires((engine,)),
    ensures
        result matches Some(place) ==> read_outcome(
            *registry,
            ptr,
            is_complete,
            *place,
            *final(place),
            status,
        ),
        result is None ==> status == null_output_status(*registry, ptr),
{
    read_value(registry, ptr, result, is_complete)
}

/// Asks the engine for the frame that is due and reads its number.
pub fn dotlottie_request_frame<T, F: Fn(&T) -> Float32>(
    registry: &Registry<Player<T>>,
    ptr: Handle,
    result: Option<&mut Float32>,
    request_frame: F,
) -> (status: i32)
    requires
        forall|engine: &T| request_frame.requires((engine,)),
    ensures
        result matches Some(place) ==> read_outcome(
            *registry,
            ptr,
            request_frame,
            *place,
            *final(place),
            status,
        ),
        result is None ==> status == null_output_status(*registry, ptr),
{
    read_value(registry, ptr, result, request_frame)
}

/// Reads the duration of the segment in force.
pub fn dotlottie_segment_duration<T, F: Fn(&T) -> Float32>(
    registry: &Registry<Player<T>>,
    ptr: Handle,
    result: Option<&mut Float32>,
    segment_duration: F,
) -> (status: i32)
    requires
        forall|engine: &T| segment_duration.requires((engine,)),
    ensures
        result matches Some(place) ==> read_outcome(
            *registry,
            ptr,
            segment_duration,
            *place,
            *final(place),
            status,
        ),
        result is None ==> status == null_output_status(*registry, ptr),
{
    read_value(registry, ptr, result, segment_duration)
}

/// Writes the size of the animation, which the engine reports as a list of
/// exactly two numbers, into the two output parameters. Any other list is
/// the engine's failure and leaves both untouched.
pub fn write_animation_size(size: &Vec<Float32>, width: &mut Float32, height: &mut Float32) -> (status:
    i32)
    ensures
        size@.len() == 2 ==> status == SUCCESS && *final(width) == size@[0] && *final(height)
            == size@[1],
        size@.len() != 2 ==> {
            &&& status == INTERNAL_ERROR
            &&& *final(width) == *old(width)
            &&& *final(height) == *old(height)
        },
{
    if size.len() == 2 {
        *width = size[0];
        *height = size[1];
        SUCCESS
    } else {
        INTERNAL_ERROR
    }
}

/// Reads the width and the height of the animation.
pub fn dotlottie_animation_size<T, F: Fn(&T) -> Vec<Float32>>(
    registry: &Registry<Player<T>>,
    ptr: Handle,
    width: Option<&mut Float32>,
    height: Option<&mut Float32>,
    animation_size: F,
) -> (status: i32)
    requires
        forall|engine: &T| animation_size.requires((engine,)),
    ensures
        match (width, height) {
            (Some(w), Some(h)) => if registry@.dom().contains(ptr) {
                exists|size: Vec<Float32>|
                    animation_size.ensures((&registry@[ptr].engine,), size) && if size@.len()
                        == 2 {
                        status == SUCCESS && *final(w) == size@[0] && *final(h) == size@[1]
                    } else {
                        status == INTERNAL_ERROR && *final(w) == *w && *final(h) == *h
                    }
            } else {
                status == INVALID_HANDLE && *final(w) == *w && *final(h) == *h
            },
            (Some(w), None) => status == null_output_status(*registry, ptr) && *final(w) == *w,
            (None, Some(h)) => status == null_output_status(*registry, ptr) && *final(h) == *h,
            (None, None) => status == null_output_status(*registry, ptr),
        },
{
    let player = match registry.get(ptr) {
        Some(player) => player,
        None => {
            return INVALID_HANDLE;
        },
    };
    match (width, height) {
        (Some(w), Some(h)) => {
            let size = animation_size(&player.engine);
            write_animation_size(&size, w, h)
        },
        _ => INVALID_ARGUMENT,
    }
}

/// Writes the flat form of the engine's configuration into the caller's
/// record. A marker name with a NUL in it is an encoding error and leaves
/// the record untouched.
pub fn write_config(config: &Config, result: &mut DotLottieConfig) -> (status: i32)
    ensures
        encodable(config.marker@) ==> status == SUCCESS && final(result).carries(*config),
        !encodable(config.marker@) ==> status == ENCODING_ERROR && *final(result) == *old(result),
{
    match DotLottieConfig::new(config) {
        Ok(record) => {
            *result = record;
            SUCCESS
        },
        Err(_) => ENCODING_ERROR,
    }
}

/// Reads the configuration in force.
pub fn dotlottie_config<T, F: Fn(&T) -> Config>(
    registry: &Registry<Player<T>>,
    ptr: Handle,
    result: Option<&mut DotLottieConfig>,
    config: F,
) -> (status: i32)
    requires
        forall|engine: &T| config.requires((engine,)),
    ensures
        result is None ==> status == null_output_status(*registry, ptr),
        result matches Some(record) ==> if registry@.dom().contains(ptr) {
            exists|answer: Config|
                (#[trigger] config.ensures((&registry@[ptr].engine,), answer)) && if encodable(
                    answer.marker@,
                ) {
                    status == SUCCESS && final(record).carries(answer)
                } else {
                    status == ENCODING_ERROR && *final(record) == *record
                }
        } else {
            status == INVALID_HANDLE && *final(record) == *record
        },
{
    let player = match registry.get(ptr) {
        Some(player) => player,
        None => {
            return INVALID_HANDLE;
        },
    };
    match result {
        Some(record) => {
            let answer = config(&player.engine);
            write_config(&answer, record)
        },
        None => INVALID_ARGUMENT,
    }
}

/// Hands a text over as a fresh native string, which the caller owns from
/// then on. A text with a NUL in it is an encoding error and leaves the
/// output untouched.
pub fn write_owned_string(text: &str, result: &mut Vec<u8>) -> (status: i32)
    ensures
        encodable(text@) ==> status == SUCCESS && final(result)@ == encoded(text@),
        !encodable(text@) ==> status == ENCODING_ERROR && *final(result) == *old(result),
{
    match to_mut_i8(text) {
        Ok(bytes) => {
            *result = bytes;
            SUCCESS
        },
        Err(_) => ENCODING_ERROR,
    }
}

/// Reads the manifest of the loaded file as text. The caller owns the
/// native string that is handed out.
pub fn dotlottie_manifest_string<T, F: Fn(&T) -> String>(
    registry: &Registry<Player<T>>,
    ptr: Handle,
    result: Option<&mut Vec<u8>>,
    manifest_string: F,
) -> (status: i32)
    requires
        forall|engine: &T| manifest_string.requires((engine,)),
    ensures
        result is None ==> status == null_output_status(*registry, ptr),
        result matches Some(bytes) ==> if registry@.dom().contains(ptr) {
            exists|text: String|
                (#[trigger] manifest_string.ensures((&registry@[ptr].engine,), text)) && if encodable(text@) {
                    status == SUCCESS && final(bytes)@ == encoded(text@)
                } else {
                    status == ENCODING_ERROR && *final(bytes) == *bytes
                }
        } else {
            status == INVALID_HANDLE && *final(bytes) == *bytes
        },
{
    let player = match registry.get(ptr) {
        Some(player) => player,
        None => {
            return INVALID_HANDLE;
        },
    };
    match result {
        Some(bytes) => {
            let text = manifest_string(&player.engine);
            write_owned_string(text.as_str(), bytes)
        },
        None => INVALID_ARGUMENT,
    }
}

/// `status` and the final buffers are the outcome of writing `text` into a
/// caller's buffer: the native string at the front and the rest untouched,
/// or nothing written at all. Where the buffer is too small, the size that
/// would do is reported through `required`.
pub open spec fn native_string_written(
    text: Seq<char>,
    before: Seq<u8>,
    after: Seq<u8>,
    required_before: Option<usize>,
    required_after: Option<usize>,
    status: i32,
) -> bool {
    &&& after.len() == before.len()
    &&& if !encodable(text) {
        status == ENCODING_ERROR && after == before && required_after == required_before
    } else if before.len() < encoded(text).len() {
        &&& status == BUFFER_TOO_SMALL
        &&& after == before
        &&& required_before is Some ==> required_after == Some(encoded(text).len() as usize)
    } else {
        &&& status == SUCCESS
        &&& after.subrange(0, encoded(text).len() as int) == encoded(text)
        &&& after.subrange(encoded(text).len() as int, before.len() as int) == before.subrange(
            encoded(text).len() as int,
            before.len() as int,
        )
        &&& required_after == required_before
    }
}

/// Writes a text into the caller's buffer as a native string.
pub fn write_native_string(text: &str, result: &mut [u8], required: Option<&mut usize>) -> (status:
    i32)
    ensures
        native_string_written(
            text@,
            old(result)@,
            final(result)@,
            match required {
                Some(size) => Some(*size),
                None => None,
            },
            match required {
                Some(size) => Some(*final(size)),
                None => None,
            },
            status,
        ),
{
    match to_native_string(text, result) {
        Ok(_) => SUCCESS,
        Err(EncodeError::BufferTooSmall { required: needed }) => {
            match required {
                Some(size) => {
                    *size = needed;
                },
                None => {},
            }
            BUFFER_TOO_SMALL
        },
        Err(EncodeError::InvalidEncoding) => ENCODING_ERROR,
    }
}

/// `status` and the final buffers are the outcome of a getter that writes a
/// text of the engine into the caller's buffer.
pub open spec fn string_getter_outcome<T, F: Fn(&T) -> String>(
    registry: Registry<Player<T>>,
    ptr: Handle,
    read: F,
    before: Seq<u8>,
    after: Seq<u8>,
    required_before: Option<usize>,
    required_after: Option<usize>,
    status: i32,
) -> bool {
    if registry@.dom().contains(ptr) {
        exists|text: String|
            read.ensures((&registry@[ptr].engine,), text) && native_string_written(
                text@,
                before,
                after,
                required_before,
                required_after,
                status,
            )
    } else {
        status == INVALID_HANDLE && after == before && required_after == required_before
    }
}

fn read_string<T, F: Fn(&T) -> String>(
    registry: &Registry<Player<T>>,
    ptr: Handle,
    result: Option<&mut [u8]>,
    required: Option<&mut usize>,
    read: F,
) -> (status: i32)
    requires
        forall|engine: &T| read.requires((engine,)),
    ensures
        result matches Some(buffer) ==> string_getter_outcome(
            *registry,
            ptr,
            read,
            buffer@,
            final(buffer)@,
            match required {
                Some(size) => Some(*size),
                None => None,
            },
            match required {
                Some(size) => Some(*final(size)),
                None => None,
            },
            status,
        ),
        result is None ==> status == null_output_status(*registry, ptr) && (required matches Some(
            size,
        ) ==> *final(size) == *size),
{
    let player = match registry.get(ptr) {
        Some(player) => player,
        None => {
            return INVALID_HANDLE;
        },
    };
    match result {
        Some(buffer) => {
            let text = read(&player.engine);
            write_native_string(text.as_str(), buffer, required)
        },
        None => INVALID_ARGUMENT,
    }
}

/// Reads the id of the animation that is active into the caller's buffer.
pub fn dotlottie_active_animation_id<T, F: Fn(&T) -> String>(
    registry: &Registry<Player<T>>,
    ptr: Handle,
    result: Option<&mut [u8]>,
    required: Option<&mut usize>,
    active_animation_id: F,
) -> (status: i32)
    requires
        forall|engine: &T| active_animation_id.requires((engine,)),
    ensures
        result matches Some(buffer) ==> string_getter_outcome(
            *registry,
            ptr,
            active_animation_id,
            buffer@,
            final(buffer)@,
            match required {
                Some(size) => Some(*size),
                None => None,
            },
            match required {
                Some(size) => Some(*final(size)),
                None => None,
            },
            status,
        ),
        result is None ==> status == null_output_status(*registry, ptr) && (required matches Some(
            size,
        ) ==> *final(size) == *size),
{
    read_string(registry, ptr, result, required, active_animation_id)
}

/// Reads the id of the theme that is active into the caller's buffer.
pub fn dotlottie_active_theme_id<T, F: Fn(&T) -> String>(
    registry: &Registry<Player<T>>,
    ptr: Handle,
    result: Option<&mut [u8]>,
    required: Option<&mut usize>,
    active_theme_id: F,
) -> (status: i32)
    requires
        forall|engine: &T| active_theme_id.requires((engine,)),
    ensures
        result matches Some(buffer) ==> string_getter_outcome(
            *registry,
            ptr,
            active_theme_id,
            buffer@,
            final(buffer)@,
            match required {
                Some(size) => Some(*size),
                None => None,
            },
            match required {
                Some(size) => Some(*final(size)),
                None => None,
            },
            status,
        ),
        result is None ==> status == null_output_status(*registry, ptr) && (required matches Some(
            size,
        ) ==> *final(size) == *size),
{
    read_string(registry, ptr, result, required, active_theme_id)
}

/// `status`, the final buffer and the final count are the outcome of the
/// size-query/fill protocol on `markers`, for a caller who declared room for
/// `declared` records in a buffer that held `before`.
pub open spec fn markers_filled(
    markers: Seq<Marker>,
    before: Seq<DotLottieMarker>,
    after: Seq<DotLottieMarker>,
    declared: usize,
    count: usize,
    status: i32,
) -> bool {
    &&& after.len() == before.len()
    &&& if declared < markers.len() || before.len() < markers.len() {
        status == BUFFER_TOO_SMALL && after == before && count == declared
    } else if !markers_encodable(markers) {
        status == ENCODING_ERROR && after == before && count == declared
    } else {
        &&& status == SUCCESS
        &&& count == markers.len()
        &&& represent_all(after.subrange(0, markers.len() as int), markers)
        &&& after.subrange(markers.len() as int, before.len() as int) == before.subrange(
            markers.len() as int,
            before.len() as int,
        )
    }
}

/// Answers a caller who asks for the markers, by the size-query/fill
/// protocol.
///
/// With a null buffer the required count is written into `size` and nothing
/// else happens. With a buffer, `size` holds the room that the caller
/// declares: if it is too small, or the buffer is shorter than the markers
/// need, nothing is written; else the markers fill the front of the buffer
/// and `size` gets their count. A null `size` is an invalid argument.
pub fn write_markers(
    markers: &Vec<Marker>,
    result: Option<&mut [DotLottieMarker]>,
    size: Option<&mut usize>,
) -> (status: i32)
    ensures
        match (result, size) {
            (Some(buffer), Some(count)) => markers_filled(
                markers@,
                buffer@,
                final(buffer)@,
                *count,
                *final(count),
                status,
            ),
            (None, Some(count)) => status == SUCCESS && *final(count) == markers@.len(),
            (Some(buffer), None) => status == INVALID_ARGUMENT && final(buffer)@ == buffer@,
            (None, None) => status == INVALID_ARGUMENT,
        },
{
    let count = match size {
        Some(count) => count,
        None => {
            return INVALID_ARGUMENT;
        },
    };
    let buffer = match result {
        Some(buffer) => buffer,
        None => {
            *count = markers.len();
            return SUCCESS;
        },
    };
    if *count < markers.len() || buffer.len() < markers.len() {
        return BUFFER_TOO_SMALL;
    }
    match DotLottieMarker::convert_all(markers) {
        Ok(records) => {
            if DotLottieMarker::copy_all(records, buffer) {
                *count = markers.len();
                SUCCESS
            } else {
                BUFFER_TOO_SMALL
            }
        },
        Err(_) => ENCODING_ERROR,
    }
}

/// Reads the markers of the loaded animation, by the size-query/fill
/// protocol of [`write_markers`].
pub fn dotlottie_markers<T, F: Fn(&T) -> Vec<Marker>>(
    registry: &Registry<Player<T>>,
    ptr: Handle,
    result: Option<&mut [DotLottieMarker]>,
    size: Option<&mut usize>,
    markers: F,
) -> (status: i32)
    requires
        forall|engine: &T| markers.requires((engine,)),
    ensures
        !registry@.dom().contains(ptr) ==> {
            &&& status == INVALID_HANDLE
            &&& result matches Some(buffer) ==> final(buffer)@ == buffer@
            &&& size matches Some(count) ==> *final(count) == *count
        },
        registry@.dom().contains(ptr) ==> exists|answer: Vec<Marker>|
            markers.ensures((&registry@[ptr].engine,), answer) && match (result, size) {
                (Some(buffer), Some(count)) => markers_filled(
                    answer@,
                    buffer@,
                    final(buffer)@,
                    *count,
                    *final(count),
                    status,
                ),
                (None, Some(count)) => status == SUCCESS && *final(count) == answer@.len(),
                (Some(buffer), None) => status == INVALID_ARGUMENT && final(buffer)@ == buffer@,
                (None, None) => status == INVALID_ARGUMENT,
            },
{
    let player = match registry.get(ptr) {
        Some(player) => player,
        None => {
            return INVALID_HANDLE;
        },
    };
    let answer = markers(&player.engine);
    write_markers(&answer, result, size)
}

/// Writes the set of the pointer events that the engine's list names. A
/// name that is not known is the engine's failure and leaves the output
/// untouched.
pub fn write_listener_types(names: &Vec<String>, result: &mut ListenerType) -> (status: i32)
    ensures
        all_known(names@) ==> status == SUCCESS && final(result).bits == bits_of(names@),
        !all_known(names@) ==> status == INTERNAL_ERROR && *final(result) == *old(result),
{
    match ListenerType::new(names) {
        Ok(set) => {
            *result = set;
            SUCCESS
        },
        Err(_) => INTERNAL_ERROR,
    }
}

/// Reads which pointer events the loaded state machine listens for.
pub fn dotlottie_state_machine_framework_setup<T, F: Fn(&T) -> Vec<String>>(
    registry: &Registry<Player<T>>,
    ptr: Handle,
    result: Option<&mut ListenerType>,
    state_machine_framework_setup: F,
) -> (status: i32)
    requires
        forall|engine: &T| state_machine_framework_setup.requires((engine,)),
    ensures
        result is None ==> status == null_output_status(*registry, ptr),
        result matches Some(set) ==> if registry@.dom().contains(ptr) {
            exists|names: Vec<String>|
                state_machine_framework_setup.ensures((&registry@[ptr].engine,), names)
                    && if all_known(names@) {
                    status == SUCCESS && final(set).bits == bits_of(names@)
                } else {
                    status == INTERNAL_ERROR && *final(set) == *set
                }
        } else {
            status == INVALID_HANDLE && *final(set) == *set
        },
{
    let player = match registry.get(ptr) {
        Some(player) => player,
        None => {
            return INVALID_HANDLE;
        },
    };
    match result {
        Some(set) => {
            let names = state_machine_framework_setup(&player.engine);
            write_listener_types(&names, set)
        },
        None => INVALID_ARGUMENT,
    }
}

/// `after` is `before` with the tables of the player that `ptr` names
/// replaced: the engine and every other player are as they were.
pub open spec fn tables_replaced<T>(
    before: Registry<Player<T>>,
    after: Registry<Player<T>>,
    ptr: Handle,
    observers: Seq<Observer>,
    state_machine_observers: Seq<StateMachineObserver>,
) -> bool {
    &&& after@.dom() == before@.dom()
    &&& after@.remove(ptr) == before@.remove(ptr)
    &&& after@[ptr].engine == before@[ptr].engine
    &&& after@[ptr].observers@ == observers
    &&& after@[ptr].state_machine_observers@ == state_machine_observers
}

/// Subscribes a table of playback callbacks to the player that `ptr` names.
/// A table that is subscribed already stays subscribed once.
pub fn dotlottie_player_subscribe<T>(
    registry: &mut Registry<Player<T>>,
    ptr: Handle,
    observer: Option<&Observer>,
) -> (status: i32)
    requires
        old(registry).wf(),
    ensures
        final(registry).wf(),
        final(registry).retired() == old(registry).retired(),
        final(registry).slot_count() == old(registry).slot_count(),
        !old(registry)@.dom().contains(ptr) ==> status == INVALID_HANDLE && final(registry)@
            == old(registry)@,
        old(registry)@.dom().contains(ptr) ==> match observer {
            Some(table) => status == SUCCESS && tables_replaced(
                *old(registry),
                *final(registry),
                ptr,
                with(old(registry)@[ptr].observers@, *table),
                old(registry)@[ptr].state_machine_observers@,
            ),
            None => status == INVALID_ARGUMENT && final(registry)@ == old(registry)@,
        },
{
    if !registry.is_live(ptr) {
        return INVALID_HANDLE;
    }
    let table = match observer {
        Some(table) => *table,
        None => {
            return INVALID_ARGUMENT;
        },
    };
    match registry.get_mut(ptr) {
        Some(player) => {
            subscribe(&mut player.observers, table);
        },
        None => {},
    }
    proof {
        assert(final(registry)@.dom() =~= old(registry)@.dom());
        assert(final(registry)@.remove(ptr) =~= old(registry)@.remove(ptr));
    }
    SUCCESS
}

/// Unsubscribes a table of playback callbacks from the player that `ptr`
/// names. From then on no event reaches the table.
pub fn dotlottie_player_unsubscribe<T>(
    registry: &mut Registry<Player<T>>,
    ptr: Handle,
    observer: Option<&Observer>,
) -> (status: i32)
    requires
        old(registry).wf(),
    ensures
        final(registry).wf(),
        final(registry).retired() == old(registry).retired(),
        final(registry).slot_count() == old(registry).slot_count(),
        !old(registry)@.dom().contains(ptr) ==> status == INVALID_HANDLE && final(registry)@
            == old(registry)@,
        old(registry)@.dom().contains(ptr) ==> match observer {
            Some(table) => status == SUCCESS && tables_replaced(
                *old(registry),
                *final(registry),
                ptr,
                without(old(registry)@[ptr].observers@, *table),
                old(registry)@[ptr].state_machine_observers@,
            ),
            None => status == INVALID_ARGUMENT && final(registry)@ == old(registry)@,
        },
{
    if !registry.is_live(ptr) {
        return INVALID_HANDLE;
    }
    let table = match observer {
        Some(table) => *table,
        None => {
            return INVALID_ARGUMENT;
        },
    };
    match registry.get_mut(ptr) {
        Some(player) => {
            unsubscribe(&mut player.observers, table);
        },
        None => {},
    }
    proof {
        assert(final(registry)@.dom() =~= old(registry)@.dom());
        assert(final(registry)@.remove(ptr) =~= old(registry)@.remove(ptr));
    }
    SUCCESS
}

/// Subscribes a table of state machine callbacks to the player that `ptr`
/// names. A table that is subscribed already stays subscribed once.
pub fn dotlottie_player_state_machine_subscribe<T>(
    registry: &mut Registry<Player<T>>,
    ptr: Handle,
    observer: Option<&StateMachineObserver>,
) -> (status: i32)
    requires
        old(registry).wf(),
    ensures
        final(registry).wf(),
        final(registry).retired() == old(registry).retired(),
        final(registry).slot_count() == old(registry).slot_count(),
        !old(registry)@.dom().contains(ptr) ==> status == INVALID_HANDLE && final(registry)@
            == old(registry)@,
        old(registry)@.dom().contains(ptr) ==> match observer {
            Some(table) => status == SUCCESS && tables_replaced(
                *old(registry),
                *final(registry),
                ptr,
                old(registry)@[ptr].observers@,
                with(old(registry)@[ptr].state_machine_observers@, *table),
            ),
            None => status == INVALID_ARGUMENT && final(registry)@ == old(registry)@,
        },
{
    if !registry.is_live(ptr) {
        return INVALID_HANDLE;
    }
    let table = match observer {
        Some(table) => *table,
        None => {
            return INVALID_ARGUMENT;
        },
    };
    match registry.get_mut(ptr) {
        Some(player) => {
            state_machine_subscribe(&mut player.state_machine_observers, table);
        },
        None => {},
    }
    proof {
        assert(final(registry)@.dom() =~= old(registry)@.dom());
        assert(final(registry)@.remove(ptr) =~= old(registry)@.remove(ptr));
    }
    SUCCESS
}

/// Unsubscribes a table of state machine callbacks from the player that
/// `ptr` names. From then on no event reaches the table.
pub fn dotlottie_player_state_machine_unsubscribe<T>(
    registry: &mut Registry<Player<T>>,
    ptr: Handle,
    observer: Option<&StateMachineObserver>,
) -> (status: i32)
    requires
        old(registry).wf(),
    ensures
        final(registry).wf(),
        final(registry).retired() == old(registry).retired(),
        final(registry).slot_count() == old(registry).slot_count(),
        !old(registry)@.dom().contains(ptr) ==> status == INVALID_HANDLE && final(registry)@
            == old(registry)@,
        old(registry)@.dom().contains(ptr) ==> match observer {
            Some(table) => status == SUCCESS && tables_replaced(
                *old(registry),
                *final(registry),
                ptr,
                old(registry)@[ptr].observers@,
                without(old(registry)@[ptr].state_machine_observers@, *table),
            ),
            None => status == INVALID_ARGUMENT && final(registry)@ == old(registry)@,
        },
{
    if !registry.is_live(ptr) {
        return INVALID_HANDLE;
    }
    let table = match observer {
        Some(table) => *table,
        None => {
            return INVALID_ARGUMENT;
        },
    };
    match registry.get_mut(ptr) {
        Some(player) => {
            state_machine_unsubscribe(&mut player.state_machine_observers, table);
        },
        None => {},
    }
    proof {
        assert(final(registry)@.dom() =~= old(registry)@.dom());
        assert(final(registry)@.remove(ptr) =~= old(registry)@.remove(ptr));
    }
    SUCCESS
}

/// Turns a playback event of the player that `ptr` names into the
/// invocations it is owed: one for each subscribed table, in subscription
/// order, and none for a handle that names no player.
pub fn dotlottie_player_notify<T>(
    registry: &Registry<Player<T>>,
    ptr: Handle,
    event: PlayerEvent,
) -> (calls: Vec<Invocation>)
    ensures
        registry@.dom().contains(ptr) ==> invocations_of(
            registry@[ptr].observers@,
            event,
            calls@,
        ),
        !registry@.dom().contains(ptr) ==> calls@.len() == 0,
{
    match registry.get(ptr) {
        Some(player) => notify_all(&player.observers, event),
        None => Vec::new(),
    }
}

/// Turns a state machine event of the player that `ptr` names into the
/// invocations it is owed: one for each subscribed table, in subscription
/// order; none where a state name cannot be marshalled, and none for a
/// handle that names no player.
pub fn dotlottie_player_state_machine_notify<T>(
    registry: &Registry<Player<T>>,
    ptr: Handle,
    event: &StateMachineEvent,
) -> (calls: Vec<Invocation>)
    ensures
        registry@.dom().contains(ptr) ==> state_machine_invocations_of(
            registry@[ptr].state_machine_observers@,
            *event,
            calls@,
        ),
        !registry@.dom().contains(ptr) ==> calls@.len() == 0,
{
    match registry.get(ptr) {
        Some(player) => state_machine_notify_all(&player.state_machine_observers, event),
        None => Vec::new(),
    }
}

} // verus!
