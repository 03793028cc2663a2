//! Host messages: the (caller, selector) pairs that the adapter understands,
//! and how a pair is classified.
use vstd::prelude::*;
use vstd::string::StringSliceAdditionalSpecFns;

use crate::cstr::bytes_eq;

verus! {

/// Caller for the host's plug-in access manager.
pub const SP_ACCESS_CALLER: &'static str = "SP Access";

/// Caller for the host's plug-in interface.
pub const SP_INTERFACE_CALLER: &'static str = "SP Interface";

/// Caller for the host's cache manager.
pub const SP_CACHE_CALLER: &'static str = "SP Cache";

/// Caller for the host's property manager.
pub const SP_PROPERTIES_CALLER: &'static str = "SP Properties";

/// Caller for notifications.
pub const AI_NOTIFIER_CALLER: &'static str = "AI Notifier";

/// Caller for actions.
pub const AI_ACTION_CALLER: &'static str = "Action Manager";

/// Caller for menu items.
pub const AI_MENU_CALLER: &'static str = "AI Menu";

/// Caller for filters.
pub const AI_FILTER_CALLER: &'static str = "AI Filter";

/// Caller for plug-in groups.
pub const AI_PLUGIN_GROUP_CALLER: &'static str = "AI Plugin Group";

/// Caller for file formats.
pub const AI_FILE_FORMAT_CALLER: &'static str = "AI File Format";

/// Caller for tools.
pub const AI_TOOL_CALLER: &'static str = "AI Tool";

/// Caller for live effects.
pub const AI_LIVE_EFFECT_CALLER: &'static str = "AI Live Effect";

/// Caller for timers.
pub const AI_TIMER_CALLER: &'static str = "AI Timer";

/// Caller for the clipboard.
pub const AI_CLIPBOARD_CALLER: &'static str = "AI Clipboard";

/// Caller for workspaces.
pub const AI_WORKSPACE_CALLER: &'static str = "AIWorkspace";

/// Selector `Unload`.
pub const UNLOAD_SELECTOR: &'static str = "Unload";

/// Selector `Reload`.
pub const RELOAD_SELECTOR: &'static str = "Reload";

/// Selector `About`.
pub const ABOUT_SELECTOR: &'static str = "About";

/// Selector `Startup`.
pub const STARTUP_SELECTOR: &'static str = "Startup";

/// Selector `Shutdown`.
pub const SHUTDOWN_SELECTOR: &'static str = "Shutdown";

/// Selector `Plug-in Purge`.
pub const PURGE_CACHES_SELECTOR: &'static str = "Plug-in Purge";

/// Selector `Acquire`.
pub const PROPERTIES_ACQUIRE_SELECTOR: &'static str = "Acquire";

/// Selector `Release`.
pub const PROPERTIES_RELEASE_SELECTOR: &'static str = "Release";

/// Selector `Notify`.
pub const NOTIFY_SELECTOR: &'static str = "Notify";

/// Selector `Do Action`.
pub const DO_ACTION_SELECTOR: &'static str = "Do Action";

/// Selector `Go Menu Item`.
pub const GO_MENU_ITEM_SELECTOR: &'static str = "Go Menu Item";

/// Selector `Update Menu Item`.
pub const UPDATE_MENU_ITEM_SELECTOR: &'static str = "Update Menu Item";

/// Selector `Get Parameters`.
pub const GET_FILTER_PARAMETERS_SELECTOR: &'static str = "Get Parameters";

/// Selector `Go Filter`.
pub const GO_FILTER_SELECTOR: &'static str = "Go Filter";

/// Selector `AI Notify Edits`.
pub const NOTIFY_EDITS_SELECTOR: &'static str = "AI Notify Edits";

/// Selector `AI Update Art`.
pub const UPDATE_ART_SELECTOR: &'static str = "AI Update Art";

/// Selector `AI Get Parameters`.
pub const GET_FILE_FORMAT_PARAMETERS_SELECTOR: &'static str = "AI Get Parameters";

/// Selector `AI Go`.
pub const GO_FILE_FORMAT_SELECTOR: &'static str = "AI Go";

/// Selector `AI Check`.
pub const CHECK_FILE_FORMAT_SELECTOR: &'static str = "AI Check";

/// Selector `AI Update`.
pub const UPDATE_FILE_FORMAT_SELECTOR: &'static str = "AI Update";

/// Selector `AI Edit Options`.
pub const EDIT_TOOL_OPTIONS_SELECTOR: &'static str = "AI Edit Options";

/// Selector `AI Track Cursor`.
pub const TRACK_TOOL_CURSOR_SELECTOR: &'static str = "AI Track Cursor";

/// Selector `AI Mouse Down`.
pub const TOOL_MOUSE_DOWN_SELECTOR: &'static str = "AI Mouse Down";

/// Selector `AI Mouse Drag`.
pub const TOOL_MOUSE_DRAG_SELECTOR: &'static str = "AI Mouse Drag";

/// Selector `AI Mouse Up`.
pub const TOOL_MOUSE_UP_SELECTOR: &'static str = "AI Mouse Up";

/// Selector `AI Select`.
pub const SELECT_TOOL_SELECTOR: &'static str = "AI Select";

/// Selector `AI Deselect`.
pub const DESELECT_TOOL_SELECTOR: &'static str = "AI Deselect";

/// Selector `AI Reselect`.
pub const RESELECT_TOOL_SELECTOR: &'static str = "AI Reselect";

/// Selector `AI Decrease Diameter`.
pub const TOOL_DECREASE_DIAMETER_SELECTOR: &'static str = "AI Decrease Diameter";

/// Selector `AI Increase Diameter`.
pub const TOOL_INCREASE_DIAMETER_SELECTOR: &'static str = "AI Increase Diameter";

/// Selector `AI Edit Parameters`.
pub const EDIT_LIVE_EFFECT_PARAMETERS_SELECTOR: &'static str = "AI Edit Parameters";

/// Selector `AI Go Live Effect`.
pub const GO_LIVE_EFFECT_SELECTOR: &'static str = "AI Go Live Effect";

/// Selector `AI Interpolate Parameters`.
pub const LIVE_EFFECT_INTERPOLATE_SELECTOR: &'static str = "AI Interpolate Parameters";

/// Selector `AI Get Input Type`.
pub const LIVE_EFFECT_INPUT_TYPE_SELECTOR: &'static str = "AI Get Input Type";

/// Selector `AI Scale Parameters`.
pub const LIVE_EFFECT_SCALE_PARAMETERS_SELECTOR: &'static str = "AI Scale Parameters";

/// Selector `AI Convert Color Space`.
pub const LIVE_EFFECT_CONVERT_COLOR_SPACE_SELECTOR: &'static str = "AI Convert Color Space";

/// Selector `AI Adjust Colors`.
pub const LIVE_EFFECT_ADJUST_COLORS_SELECTOR: &'static str = "AI Adjust Colors";

/// Selector `AI Handle Merge`.
pub const LIVE_EFFECT_HANDLE_MERGE_SELECTOR: &'static str = "AI Handle Merge";

/// Selector `AI Go Timer`.
pub const GO_TIMER_SELECTOR: &'static str = "AI Go Timer";

/// Selector `AI Go Clipboard`.
pub const GO_CLIPBOARD_SELECTOR: &'static str = "AI Go Clipboard";

/// Selector `AI Can Copy`.
pub const CAN_COPY_CLIPBOARD_SELECTOR: &'static str = "AI Can Copy";

/// Selector `AI Clone`.
pub const CLONE_CLIPBOARD_SELECTOR: &'static str = "AI Clone";

/// Selector `AI Dispose`.
pub const DISPOSE_CLIPBOARD_SELECTOR: &'static str = "AI Dispose";

/// Selector `AIWSWrite`.
pub const WORKSPACE_WRITE_SELECTOR: &'static str = "AIWSWrite";

/// Selector `AIWSRestore`.
pub const WORKSPACE_RESTORE_SELECTOR: &'static str = "AIWSRestore";

/// Selector `AIWSDefault`.
pub const WORKSPACE_DEFAULT_SELECTOR: &'static str = "AIWSDefault";

/// A message that the host identifies by a fixed (caller, selector) pair.
/// Messages of the notifier caller are told apart by their notifier handle
/// instead, see `Classified`.
#[derive(Clone, Copy, Debug, PartialEq, Eq, Structural)]
pub enum Event {
    /// The host is about to unload the plug-in's code.
    Unload,
    /// The host has reloaded the plug-in's code.
    Reload,
    /// The host asks for the about box.
    About,
    /// First message of a plug-in's life.
    Startup,
    /// Last message of a plug-in's life.
    Shutdown,
    /// The host asks the plug-in to flush its caches.
    PurgeCaches,
    AcquireProperty,
    ReleaseProperty,
    GoAction,
    GoMenuItem,
    UpdateMenuItem,
    GetFilterParameters,
    GoFilter,
    PluginGroupNotify,
    PluginGroupUpdate,
    GetFileFormatParameters,
    GoFileFormat,
    CheckFileFormat,
    FileFormatUpdate,
    SetFileFormatParameters,
    EditTool,
    TrackToolCursor,
    ToolMouseDown,
    ToolMouseDrag,
    ToolMouseUp,
    SelectTool,
    DeselectTool,
    ReselectTool,
    DecreaseDiameter,
    IncreaseDiameter,
    EditLiveEffectParameters,
    GoLiveEffect,
    LiveEffectInterpolate,
    LiveEffectGetInputType,
    LiveEffectScaleParameters,
    LiveEffectConvertColorSpace,
    LiveEffectAdjustColors,
    LiveEffectHandleMerge,
    GoTimer,
    GoClipboard,
    CanCopyClipboard,
    CloneClipboard,
    DisposeClipboard,
    WorkspaceWrite,
    WorkspaceRestore,
    WorkspaceDefault,
}


/// The caller families with fixed selectors.
#[derive(Clone, Copy, Debug, PartialEq, Eq, Structural)]
pub enum Family {
    Access,
    Interface,
    Cache,
    Properties,
    Action,
    Menu,
    Filter,
    PluginGroup,
    FileFormat,
    Tool,
    LiveEffect,
    Timer,
    Clipboard,
    Workspace,
}

/// The caller string of a family.
pub open spec fn family_caller(f: Family) -> &'static str {
    match f {
        Family::Access => SP_ACCESS_CALLER,
        Family::Interface => SP_INTERFACE_CALLER,
        Family::Cache => SP_CACHE_CALLER,
        Family::Properties => SP_PROPERTIES_CALLER,
        Family::Action => AI_ACTION_CALLER,
        Family::Menu => AI_MENU_CALLER,
        Family::Filter => AI_FILTER_CALLER,
        Family::PluginGroup => AI_PLUGIN_GROUP_CALLER,
        Family::FileFormat => AI_FILE_FORMAT_CALLER,
        Family::Tool => AI_TOOL_CALLER,
        Family::LiveEffect => AI_LIVE_EFFECT_CALLER,
        Family::Timer => AI_TIMER_CALLER,
        Family::Clipboard => AI_CLIPBOARD_CALLER,
        Family::Workspace => AI_WORKSPACE_CALLER,
    }
}

/// The family an event belongs to.
pub open spec fn family(e: Event) -> Family {
    match e {
        Event::Unload => Family::Access,
        Event::Reload => Family::Access,
        Event::About => Family::Interface,
        Event::Startup => Family::Interface,
        Event::Shutdown => Family::Interface,
        Event::PurgeCaches => Family::Cache,
        Event::AcquireProperty => Family::Properties,
        Event::ReleaseProperty => Family::Properties,
        Event::GoAction => Family::Action,
        Event::GoMenuItem => Family::Menu,
        Event::UpdateMenuItem => Family::Menu,
        Event::GetFilterParameters => Family::Filter,
        Event::GoFilter => Family::Filter,
        Event::PluginGroupNotify => Family::PluginGroup,
        Event::PluginGroupUpdate => Family::PluginGroup,
        Event::GetFileFormatParameters => Family::FileFormat,
        Event::GoFileFormat => Family::FileFormat,
        Event::CheckFileFormat => Family::FileFormat,
        Event::FileFormatUpdate => Family::FileFormat,
        Event::SetFileFormatParameters => Family::FileFormat,
        Event::EditTool => Family::Tool,
        Event::TrackToolCursor => Family::Tool,
        Event::ToolMouseDown => Family::Tool,
        Event::ToolMouseDrag => Family::Tool,
        Event::ToolMouseUp => Family::Tool,
        Event::SelectTool => Family::Tool,
        Event::DeselectTool => Family::Tool,
        Event::ReselectTool => Family::Tool,
        Event::DecreaseDiameter => Family::Tool,
        Event::IncreaseDiameter => Family::Tool,
        Event::EditLiveEffectParameters => Family::LiveEffect,
        Event::GoLiveEffect => Family::LiveEffect,
        Event::LiveEffectInterpolate => Family::LiveEffect,
        Event::LiveEffectGetInputType => Family::LiveEffect,
        Event::LiveEffectScaleParameters => Family::LiveEffect,
        Event::LiveEffectConvertColorSpace => Family::LiveEffect,
        Event::LiveEffectAdjustColors => Family::LiveEffect,
        Event::LiveEffectHandleMerge => Family::LiveEffect,
        Event::GoTimer => Family::Timer,
        Event::GoClipboard => Family::Clipboard,
        Event::CanCopyClipboard => Family::Clipboard,
        Event::CloneClipboard => Family::Clipboard,
        Event::DisposeClipboard => Family::Clipboard,
        Event::WorkspaceWrite => Family::Workspace,
        Event::WorkspaceRestore => Family::Workspace,
        Event::WorkspaceDefault => Family::Workspace,
    }
}

/// The selector string of an event.
pub open spec fn selector_of(e: Event) -> &'static str {
    match e {
        Event::Unload => UNLOAD_SELECTOR,
        Event::Reload => RELOAD_SELECTOR,
        Event::About => ABOUT_SELECTOR,
        Event::Startup => STARTUP_SELECTOR,
        Event::Shutdown => SHUTDOWN_SELECTOR,
        Event::PurgeCaches => PURGE_CACHES_SELECTOR,
        Event::AcquireProperty => PROPERTIES_ACQUIRE_SELECTOR,
        Event::ReleaseProperty => PROPERTIES_RELEASE_SELECTOR,
        Event::GoAction => DO_ACTION_SELECTOR,
        Event::GoMenuItem => GO_MENU_ITEM_SELECTOR,
        Event::UpdateMenuItem => UPDATE_MENU_ITEM_SELECTOR,
        Event::GetFilterParameters => GET_FILTER_PARAMETERS_SELECTOR,
        Event::GoFilter => GO_FILTER_SELECTOR,
        Event::PluginGroupNotify => NOTIFY_EDITS_SELECTOR,
        Event::PluginGroupUpdate => UPDATE_ART_SELECTOR,
        Event::GetFileFormatParameters => GET_FILE_FORMAT_PARAMETERS_SELECTOR,
        Event::GoFileFormat => GO_FILE_FORMAT_SELECTOR,
        Event::CheckFileFormat => CHECK_FILE_FORMAT_SELECTOR,
        Event::FileFormatUpdate => UPDATE_FILE_FORMAT_SELECTOR,
        Event::SetFileFormatParameters => DO_ACTION_SELECTOR,
        Event::EditTool => EDIT_TOOL_OPTIONS_SELECTOR,
        Event::TrackToolCursor => TRACK_TOOL_CURSOR_SELECTOR,
        Event::ToolMouseDown => TOOL_MOUSE_DOWN_SELECTOR,
        Event::ToolMouseDrag => TOOL_MOUSE_DRAG_SELECTOR,
        Event::ToolMouseUp => TOOL_MOUSE_UP_SELECTOR,
        Event::SelectTool => SELECT_TOOL_SELECTOR,
        Event::DeselectTool => DESELECT_TOOL_SELECTOR,
        Event::ReselectTool => RESELECT_TOOL_SELECTOR,
        Event::DecreaseDiameter => TOOL_DECREASE_DIAMETER_SELECTOR,
        Event::IncreaseDiameter => TOOL_INCREASE_DIAMETER_SELECTOR,
        Event::EditLiveEffectParameters => EDIT_LIVE_EFFECT_PARAMETERS_SELECTOR,
        Event::GoLiveEffect => GO_LIVE_EFFECT_SELECTOR,
        Event::LiveEffectInterpolate => LIVE_EFFECT_INTERPOLATE_SELECTOR,
        Event::LiveEffectGetInputType => LIVE_EFFECT_INPUT_TYPE_SELECTOR,
        Event::LiveEffectScaleParameters => LIVE_EFFECT_SCALE_PARAMETERS_SELECTOR,
        Event::LiveEffectConvertColorSpace => LIVE_EFFECT_CONVERT_COLOR_SPACE_SELECTOR,
        Event::LiveEffectAdjustColors => LIVE_EFFECT_ADJUST_COLORS_SELECTOR,
        Event::LiveEffectHandleMerge => LIVE_EFFECT_HANDLE_MERGE_SELECTOR,
        Event::GoTimer => GO_TIMER_SELECTOR,
        Event::GoClipboard => GO_CLIPBOARD_SELECTOR,
        Event::CanCopyClipboard => CAN_COPY_CLIPBOARD_SELECTOR,
        Event::CloneClipboard => CLONE_CLIPBOARD_SELECTOR,
        Event::DisposeClipboard => DISPOSE_CLIPBOARD_SELECTOR,
        Event::WorkspaceWrite => WORKSPACE_WRITE_SELECTOR,
        Event::WorkspaceRestore => WORKSPACE_RESTORE_SELECTOR,
        Event::WorkspaceDefault => WORKSPACE_DEFAULT_SELECTOR,
    }
}

/// The (caller, selector) pair of an event.
pub open spec fn event_key(e: Event) -> (Seq<u8>, Seq<u8>) {
    (family_caller(family(e)).spec_bytes(), selector_of(e).spec_bytes())
}

/// What a (caller, selector) pair is to the adapter.
#[derive(Clone, Copy, Debug, PartialEq, Eq, Structural)]
pub enum Classified {
    /// A message of the notifier caller; `generic` when its selector is the
    /// plain notification one.
    Notifier { generic: bool },
    /// A message with a fixed pair.
    Keyed(Event),
    /// A pair that the adapter does not route.
    Unknown,
}

/// Whether `bytes` spell `s`.
fn spells(bytes: &[u8], s: &str) -> (r: bool)
    ensures
        r == (bytes@ == s.spec_bytes()),
{
    bytes_eq(bytes, s.as_bytes())
}

/// The event of family `Access` whose selector is `selector`, if any.
fn classify_access(selector: &[u8]) -> (r: Option<Event>)
    ensures
        r matches Some(e) ==> family(e) == Family::Access && selector@ == selector_of(e).spec_bytes(),
        r is None ==> forall|e: Event|
            family(e) == Family::Access ==> selector@ != #[trigger] selector_of(e).spec_bytes(),
{
    if spells(selector, UNLOAD_SELECTOR) {
        return Some(Event::Unload);
    }
    if spells(selector, RELOAD_SELECTOR) {
        return Some(Event::Reload);
    }
    None
}

/// The event of family `Interface` whose selector is `selector`, if any.
fn classify_interface(selector: &[u8]) -> (r: Option<Event>)
    ensures
        r matches Some(e) ==> family(e) == Family::Interface && selector@ == selector_of(e).spec_bytes(),
        r is None ==> forall|e: Event|
            family(e) == Family::Interface ==> selector@ != #[trigger] selector_of(e).spec_bytes(),
{
    if spells(selector, ABOUT_SELECTOR) {
        return Some(Event::About);
    }
    if spells(selector, STARTUP_SELECTOR) {
        return Some(Event::Startup);
    }
    if spells(selector, SHUTDOWN_SELECTOR) {
        return Some(Event::Shutdown);
    }
    None
}

/// The event of family `Cache` whose selector is `selector`, if any.
fn classify_cache(selector: &[u8]) -> (r: Option<Event>)
    ensures
        r matches Some(e) ==> family(e) == Family::Cache && selector@ == selector_of(e).spec_bytes(),
        r is None ==> forall|e: Event|
            family(e) == Family::Cache ==> selector@ != #[trigger] selector_of(e).spec_bytes(),
{
    if spells(selector, PURGE_CACHES_SELECTOR) {
        return Some(Event::PurgeCaches);
    }
    None
}

/// The event of family `Properties` whose selector is `selector`, if any.
fn classify_properties(selector: &[u8]) -> (r: Option<Event>)
    ensures
        r matches Some(e) ==> family(e) == Family::Properties && selector@ == selector_of(e).spec_bytes(),
        r is None ==> forall|e: Event|
            family(e) == Family::Properties ==> selector@ != #[trigger] selector_of(e).spec_bytes(),
{
    if spells(selector, PROPERTIES_ACQUIRE_SELECTOR) {
        return Some(Event::AcquireProperty);
    }
    if spells(selector, PROPERTIES_RELEASE_SELECTOR) {
        return Some(Event::ReleaseProperty);
    }
    None
}

/// The event of family `Action` whose selector is `selector`, if any.
fn classify_action(selector: &[u8]) -> (r: Option<Event>)
    ensures
        r matches Some(e) ==> family(e) == Family::Action && selector@ == selector_of(e).spec_bytes(),
        r is None ==> forall|e: Event|
            family(e) == Family::Action ==> selector@ != #[trigger] selector_of(e).spec_bytes(),
{
    if spells(selector, DO_ACTION_SELECTOR) {
        return Some(Event::GoAction);
    }
    None
}

/// The event of family `Menu` whose selector is `selector`, if any.
fn classify_menu(selector: &[u8]) -> (r: Option<Event>)
    ensures
        r matches Some(e) ==> family(e) == Family::Menu && selector@ == selector_of(e).spec_bytes(),
        r is None ==> forall|e: Event|
            family(e) == Family::Menu ==> selector@ != #[trigger] selector_of(e).spec_bytes(),
{
    if spells(selector, GO_MENU_ITEM_SELECTOR) {
        return Some(Event::GoMenuItem);
    }
    if spells(selector, UPDATE_MENU_ITEM_SELECTOR) {
        return Some(Event::UpdateMenuItem);
    }
    None
}

/// The event of family `Filter` whose selector is `selector`, if any.
fn classify_filter(selector: &[u8]) -> (r: Option<Event>)
    ensures
        r matches Some(e) ==> family(e) == Family::Filter && selector@ == selector_of(e).spec_bytes(),
        r is None ==> forall|e: Event|
            family(e) == Family::Filter ==> selector@ != #[trigger] selector_of(e).spec_bytes(),
{
    if spells(selector, GET_FILTER_PARAMETERS_SELECTOR) {
        return Some(Event::GetFilterParameters);
    }
    if spells(selector, GO_FILTER_SELECTOR) {
        return Some(Event::GoFilter);
    }
    None
}

/// The event of family `PluginGroup` whose selector is `selector`, if any.
fn classify_plugin_group(selector: &[u8]) -> (r: Option<Event>)
    ensures
        r matches Some(e) ==> family(e) == Family::PluginGroup && selector@ == selector_of(e).spec_bytes(),
        r is None ==> forall|e: Event|
            family(e) == Family::PluginGroup ==> selector@ != #[trigger] selector_of(e).spec_bytes(),
{
    if spells(selector, NOTIFY_EDITS_SELECTOR) {
        return Some(Event::PluginGroupNotify);
    }
    if spells(selector, UPDATE_ART_SELECTOR) {
        return Some(Event::PluginGroupUpdate);
    }
    None
}

/// The event of family `FileFormat` whose selector is `selector`, if any.
fn classify_file_format(selector: &[u8]) -> (r: Option<Event>)
    ensures
        r matches Some(e) ==> family(e) == Family::FileFormat && selector@ == selector_of(e).spec_bytes(),
        r is None ==> forall|e: Event|
            family(e) == Family::FileFormat ==> selector@ != #[trigger] selector_of(e).spec_bytes(),
{
    if spells(selector, GET_FILE_FORMAT_PARAMETERS_SELECTOR) {
        return Some(Event::GetFileFormatParameters);
    }
    if spells(selector, GO_FILE_FORMAT_SELECTOR) {
        return Some(Event::GoFileFormat);
    }
    if spells(selector, CHECK_FILE_FORMAT_SELECTOR) {
        return Some(Event::CheckFileFormat);
    }
    if spells(selector, UPDATE_FILE_FORMAT_SELECTOR) {
        return Some(Event::FileFormatUpdate);
    }
    if spells(selector, DO_ACTION_SELECTOR) {
        return Some(Event::SetFileFormatParameters);
    }
    None
}

/// The event of family `Tool` whose selector is `selector`, if any.
fn classify_tool(selector: &[u8]) -> (r: Option<Event>)
    ensures
        r matches Some(e) ==> family(e) == Family::Tool && selector@ == selector_of(e).spec_bytes(),
        r is None ==> forall|e: Event|
            family(e) == Family::Tool ==> selector@ != #[trigger] selector_of(e).spec_bytes(),
{
    if spells(selector, EDIT_TOOL_OPTIONS_SELECTOR) {
        return Some(Event::EditTool);
    }
    if spells(selector, TRACK_TOOL_CURSOR_SELECTOR) {
        return Some(Event::TrackToolCursor);
    }
    if spells(selector, TOOL_MOUSE_DOWN_SELECTOR) {
        return Some(Event::ToolMouseDown);
    }
    if spells(selector, TOOL_MOUSE_DRAG_SELECTOR) {
        return Some(Event::ToolMouseDrag);
    }
    if spells(selector, TOOL_MOUSE_UP_SELECTOR) {
        return Some(Event::ToolMouseUp);
    }
    if spells(selector, SELECT_TOOL_SELECTOR) {
        return Some(Event::SelectTool);
    }
    if spells(selector, DESELECT_TOOL_SELECTOR) {
        return Some(Event::DeselectTool);
    }
    if spells(selector, RESELECT_TOOL_SELECTOR) {
        return Some(Event::ReselectTool);
    }
    if spells(selector, TOOL_DECREASE_DIAMETER_SELECTOR) {
        return Some(Event::DecreaseDiameter);
    }
    if spells(selector, TOOL_INCREASE_DIAMETER_SELECTOR) {
        return Some(Event::IncreaseDiameter);
    }
    None
}

/// The event of family `LiveEffect` whose selector is `selector`, if any.
fn classify_live_effect(selector: &[u8]) -> (r: Option<Event>)
    ensures
        r matches Some(e) ==> family(e) == Family::LiveEffect && selector@ == selector_of(e).spec_bytes(),
        r is None ==> forall|e: Event|
            family(e) == Family::LiveEffect ==> selector@ != #[trigger] selector_of(e).spec_bytes(),
{
    if spells(selector, EDIT_LIVE_EFFECT_PARAMETERS_SELECTOR) {
        return Some(Event::EditLiveEffectParameters);
    }
    if spells(selector, GO_LIVE_EFFECT_SELECTOR) {
        return Some(Event::GoLiveEffect);
    }
    if spells(selector, LIVE_EFFECT_INTERPOLATE_SELECTOR) {
        return Some(Event::LiveEffectInterpolate);
    }
    if spells(selector, LIVE_EFFECT_INPUT_TYPE_SELECTOR) {
        return Some(Event::LiveEffectGetInputType);
    }
    if spells(selector, LIVE_EFFECT_SCALE_PARAMETERS_SELECTOR) {
        return Some(Event::LiveEffectScaleParameters);
    }
    if spells(selector, LIVE_EFFECT_CONVERT_COLOR_SPACE_SELECTOR) {
        return Some(Event::LiveEffectConvertColorSpace);
    }
    if spells(selector, LIVE_EFFECT_ADJUST_COLORS_SELECTOR) {
        return Some(Event::LiveEffectAdjustColors);
    }
    if spells(selector, LIVE_EFFECT_HANDLE_MERGE_SELECTOR) {
        return Some(Event::LiveEffectHandleMerge);
    }
    None
}

/// The event of family `Timer` whose selector is `selector`, if any.
fn classify_timer(selector: &[u8]) -> (r: Option<Event>)
    ensures
        r matches Some(e) ==> family(e) == Family::Timer && selector@ == selector_of(e).spec_bytes(),
        r is None ==> forall|e: Event|
            family(e) == Family::Timer ==> selector@ != #[trigger] selector_of(e).spec_bytes(),
{
    if spells(selector, GO_TIMER_SELECTOR) {
        return Some(Event::GoTimer);
    }
    None
}

/// The event of family `Clipboard` whose selector is `selector`, if any.
fn classify_clipboard(selector: &[u8]) -> (r: Option<Event>)
    ensures
        r matches Some(e) ==> family(e) == Family::Clipboard && selector@ == selector_of(e).spec_bytes(),
        r is None ==> forall|e: Event|
            family(e) == Family::Clipboard ==> selector@ != #[trigger] selector_of(e).spec_bytes(),
{
    if spells(selector, GO_CLIPBOARD_SELECTOR) {
        return Some(Event::GoClipboard);
    }
    if spells(selector, CAN_COPY_CLIPBOARD_SELECTOR) {
        return Some(Event::CanCopyClipboard);
    }
    if spells(selector, CLONE_CLIPBOARD_SELECTOR) {
        return Some(Event::CloneClipboard);
    }
    if spells(selector, DISPOSE_CLIPBOARD_SELECTOR) {
        return Some(Event::DisposeClipboard);
    }
    None
}

/// The event of family `Workspace` whose selector is `selector`, if any.
fn classify_workspace(selector: &[u8]) -> (r: Option<Event>)
    ensures
        r matches Some(e) ==> family(e) == Family::Workspace && selector@ == selector_of(e).spec_bytes(),
        r is None ==> forall|e: Event|
            family(e) == Family::Workspace ==> selector@ != #[trigger] selector_of(e).spec_bytes(),
{
    if spells(selector, WORKSPACE_WRITE_SELECTOR) {
        return Some(Event::WorkspaceWrite);
    }
    if spells(selector, WORKSPACE_RESTORE_SELECTOR) {
        return Some(Event::WorkspaceRestore);
    }
    if spells(selector, WORKSPACE_DEFAULT_SELECTOR) {
        return Some(Event::WorkspaceDefault);
    }
    None
}

/// The event of family `f` with this selector, if any.
fn classify_in(f: Family, selector: &[u8]) -> (r: Option<Event>)
    ensures
        r matches Some(e) ==> family(e) == f && selector@ == selector_of(e).spec_bytes(),
        r is None ==> forall|e: Event|
            family(e) == f ==> selector@ != #[trigger] selector_of(e).spec_bytes(),
{
    match f {
        Family::Access => classify_access(selector),
        Family::Interface => classify_interface(selector),
        Family::Cache => classify_cache(selector),
        Family::Properties => classify_properties(selector),
        Family::Action => classify_action(selector),
        Family::Menu => classify_menu(selector),
        Family::Filter => classify_filter(selector),
        Family::PluginGroup => classify_plugin_group(selector),
        Family::FileFormat => classify_file_format(selector),
        Family::Tool => classify_tool(selector),
        Family::LiveEffect => classify_live_effect(selector),
        Family::Timer => classify_timer(selector),
        Family::Clipboard => classify_clipboard(selector),
        Family::Workspace => classify_workspace(selector),
    }
}

/// The caller string of a family, for comparison.
fn caller_of_family(f: Family) -> (r: &'static str)
    ensures
        r == family_caller(f),
{
    match f {
        Family::Access => SP_ACCESS_CALLER,
        Family::Interface => SP_INTERFACE_CALLER,
        Family::Cache => SP_CACHE_CALLER,
        Family::Properties => SP_PROPERTIES_CALLER,
        Family::Action => AI_ACTION_CALLER,
        Family::Menu => AI_MENU_CALLER,
        Family::Filter => AI_FILTER_CALLER,
        Family::PluginGroup => AI_PLUGIN_GROUP_CALLER,
        Family::FileFormat => AI_FILE_FORMAT_CALLER,
        Family::Tool => AI_TOOL_CALLER,
        Family::LiveEffect => AI_LIVE_EFFECT_CALLER,
        Family::Timer => AI_TIMER_CALLER,
        Family::Clipboard => AI_CLIPBOARD_CALLER,
        Family::Workspace => AI_WORKSPACE_CALLER,
    }
}

/// The event of family `f` keyed by `(caller, selector)`, if any.
fn classify_family(f: Family, caller: &[u8], selector: &[u8]) -> (r: Option<Event>)
    ensures
        r matches Some(e) ==> event_key(e) == (caller@, selector@),
        r is None ==> forall|e: Event|
            family(e) == f ==> #[trigger] event_key(e) != (caller@, selector@),
{
    if spells(caller, caller_of_family(f)) {
        classify_in(f, selector)
    } else {
        None
    }
}

/// Classifies the host's (caller, selector) pair, compared byte for byte.
pub fn classify(caller: &[u8], selector: &[u8]) -> (r: Classified)
    ensures
        (caller@ == AI_NOTIFIER_CALLER.spec_bytes()) <==> (r is Notifier),
        r matches Classified::Notifier { generic } ==> generic == (selector@
            == NOTIFY_SELECTOR.spec_bytes()),
        r matches Classified::Keyed(e) ==> event_key(e) == (caller@, selector@),
        r is Unknown ==> forall|e: Event| #[trigger] event_key(e) != (caller@, selector@),
        forall|e: Event| #[trigger] event_key(e) == (caller@, selector@) ==> r == Classified::Keyed(e),
{
    proof {
        lemma_event_keys_distinct();
    }
    if spells(caller, AI_NOTIFIER_CALLER) {
        return Classified::Notifier { generic: spells(selector, NOTIFY_SELECTOR) };
    }
    if let Some(e) = classify_family(Family::Access, caller, selector) {
        return Classified::Keyed(e);
    }
    if let Some(e) = classify_family(Family::Interface, caller, selector) {
        return Classified::Keyed(e);
    }
    if let Some(e) = classify_family(Family::Cache, caller, selector) {
        return Classified::Keyed(e);
    }
    if let Some(e) = classify_family(Family::Properties, caller, selector) {
        return Classified::Keyed(e);
    }
    if let Some(e) = classify_family(Family::Action, caller, selector) {
        return Classified::Keyed(e);
    }
    if let Some(e) = classify_family(Family::Menu, caller, selector) {
        return Classified::Keyed(e);
    }
    if let Some(e) = classify_family(Family::Filter, caller, selector) {
        return Classified::Keyed(e);
    }
    if let Some(e) = classify_family(Family::PluginGroup, caller, selector) {
        return Classified::Keyed(e);
    }
    if let Some(e) = classify_family(Family::FileFormat, caller, selector) {
        return Classified::Keyed(e);
    }
    if let Some(e) = classify_family(Family::Tool, caller, selector) {
        return Classified::Keyed(e);
    }
    if let Some(e) = classify_family(Family::LiveEffect, caller, selector) {
        return Classified::Keyed(e);
    }
    if let Some(e) = classify_family(Family::Timer, caller, selector) {
        return Classified::Keyed(e);
    }
    if let Some(e) = classify_family(Family::Clipboard, caller, selector) {
        return Classified::Keyed(e);
    }
    if let Some(e) = classify_family(Family::Workspace, caller, selector) {
        return Classified::Keyed(e);
    }
    Classified::Unknown
}

} // verus!

verus! {

proof fn lemma_bytes_about_selector()
    ensures
        ABOUT_SELECTOR.spec_bytes() == seq![65u8, 98u8, 111u8, 117u8, 116u8],
{
    reveal_strlit("About");
    vstd::string::is_ascii_spec_bytes(ABOUT_SELECTOR);
    assert(ABOUT_SELECTOR.spec_bytes() =~= seq![65u8, 98u8, 111u8, 117u8, 116u8]);
}

proof fn lemma_bytes_ai_action_caller()
    ensures
        AI_ACTION_CALLER.spec_bytes() == seq![65u8, 99u8, 116u8, 105u8, 111u8, 110u8, 32u8, 77u8, 97u8, 110u8, 97u8, 103u8, 101u8, 114u8],
{
    reveal_strlit("Action Manager");
    vstd::string::is_ascii_spec_bytes(AI_ACTION_CALLER);
    assert(AI_ACTION_CALLER.spec_bytes() =~= seq![65u8, 99u8, 116u8, 105u8, 111u8, 110u8, 32u8, 77u8, 97u8, 110u8, 97u8, 103u8, 101u8, 114u8]);
}

proof fn lemma_bytes_ai_clipboard_caller()
    ensures
        AI_CLIPBOARD_CALLER.spec_bytes() == seq![65u8, 73u8, 32u8, 67u8, 108u8, 105u8, 112u8, 98u8, 111u8, 97u8, 114u8, 100u8],
{
    reveal_strlit("AI Clipboard");
    vstd::string::is_ascii_spec_bytes(AI_CLIPBOARD_CALLER);
    assert(AI_CLIPBOARD_CALLER.spec_bytes() =~= seq![65u8, 73u8, 32u8, 67u8, 108u8, 105u8, 112u8, 98u8, 111u8, 97u8, 114u8, 100u8]);
}

proof fn lemma_bytes_ai_file_format_caller()
    ensures
        AI_FILE_FORMAT_CALLER.spec_bytes() == seq![65u8, 73u8, 32u8, 70u8, 105u8, 108u8, 101u8, 32u8, 70u8, 111u8, 114u8, 109u8, 97u8, 116u8],
{
    reveal_strlit("AI File Format");
    vstd::string::is_ascii_spec_bytes(AI_FILE_FORMAT_CALLER);
    assert(AI_FILE_FORMAT_CALLER.spec_bytes() =~= seq![65u8, 73u8, 32u8, 70u8, 105u8, 108u8, 101u8, 32u8, 70u8, 111u8, 114u8, 109u8, 97u8, 116u8]);
}

proof fn lemma_bytes_ai_filter_caller()
    ensures
        AI_FILTER_CALLER.spec_bytes() == seq![65u8, 73u8, 32u8, 70u8, 105u8, 108u8, 116u8, 101u8, 114u8],
{
    reveal_strlit("AI Filter");
    vstd::string::is_ascii_spec_bytes(AI_FILTER_CALLER);
    assert(AI_FILTER_CALLER.spec_bytes() =~= seq![65u8, 73u8, 32u8, 70u8, 105u8, 108u8, 116u8, 101u8, 114u8]);
}

proof fn lemma_bytes_ai_live_effect_caller()
    ensures
        AI_LIVE_EFFECT_CALLER.spec_bytes() == seq![65u8, 73u8, 32u8, 76u8, 105u8, 118u8, 101u8, 32u8, 69u8, 102u8, 102u8, 101u8, 99u8, 116u8],
{
    reveal_strlit("AI Live Effect");
    vstd::string::is_ascii_spec_bytes(AI_LIVE_EFFECT_CALLER);
    assert(AI_LIVE_EFFECT_CALLER.spec_bytes() =~= seq![65u8, 73u8, 32u8, 76u8, 105u8, 118u8, 101u8, 32u8, 69u8, 102u8, 102u8, 101u8, 99u8, 116u8]);
}

proof fn lemma_bytes_ai_menu_caller()
    ensures
        AI_MENU_CALLER.spec_bytes() == seq![65u8, 73u8, 32u8, 77u8, 101u8, 110u8, 117u8],
{
    reveal_strlit("AI Menu");
    vstd::string::is_ascii_spec_bytes(AI_MENU_CALLER);
    assert(AI_MENU_CALLER.spec_bytes() =~= seq![65u8, 73u8, 32u8, 77u8, 101u8, 110u8, 117u8]);
}

proof fn lemma_bytes_ai_notifier_caller()
    ensures
        AI_NOTIFIER_CALLER.spec_bytes() == seq![65u8, 73u8, 32u8, 78u8, 111u8, 116u8, 105u8, 102u8, 105u8, 101u8, 114u8],
{
    reveal_strlit("AI Notifier");
    vstd::string::is_ascii_spec_bytes(AI_NOTIFIER_CALLER);
    assert(AI_NOTIFIER_CALLER.spec_bytes() =~= seq![65u8, 73u8, 32u8, 78u8, 111u8, 116u8, 105u8, 102u8, 105u8, 101u8, 114u8]);
}

proof fn lemma_bytes_ai_plugin_group_caller()
    ensures
        AI_PLUGIN_GROUP_CALLER.spec_bytes() == seq![65u8, 73u8, 32u8, 80u8, 108u8, 117u8, 103u8, 105u8, 110u8, 32u8, 71u8, 114u8, 111u8, 117u8, 112u8],
{
    reveal_strlit("AI Plugin Group");
    vstd::string::is_ascii_spec_bytes(AI_PLUGIN_GROUP_CALLER);
    assert(AI_PLUGIN_GROUP_CALLER.spec_bytes() =~= seq![65u8, 73u8, 32u8, 80u8, 108u8, 117u8, 103u8, 105u8, 110u8, 32u8, 71u8, 114u8, 111u8, 117u8, 112u8]);
}

proof fn lemma_bytes_ai_timer_caller()
    ensures
        AI_TIMER_CALLER.spec_bytes() == seq![65u8, 73u8, 32u8, 84u8, 105u8, 109u8, 101u8, 114u8],
{
    reveal_strlit("AI Timer");
    vstd::string::is_ascii_spec_bytes(AI_TIMER_CALLER);
    assert(AI_TIMER_CALLER.spec_bytes() =~= seq![65u8, 73u8, 32u8, 84u8, 105u8, 109u8, 101u8, 114u8]);
}

proof fn lemma_bytes_ai_tool_caller()
    ensures
        AI_TOOL_CALLER.spec_bytes() == seq![65u8, 73u8, 32u8, 84u8, 111u8, 111u8, 108u8],
{
    reveal_strlit("AI Tool");
    vstd::string::is_ascii_spec_bytes(AI_TOOL_CALLER);
    assert(AI_TOOL_CALLER.spec_bytes() =~= seq![65u8, 73u8, 32u8, 84u8, 111u8, 111u8, 108u8]);
}

proof fn lemma_bytes_ai_workspace_caller()
    ensures
        AI_WORKSPACE_CALLER.spec_bytes() == seq![65u8, 73u8, 87u8, 111u8, 114u8, 107u8, 115u8, 112u8, 97u8, 99u8, 101u8],
{
    reveal_strlit("AIWorkspace");
    vstd::string::is_ascii_spec_bytes(AI_WORKSPACE_CALLER);
    assert(AI_WORKSPACE_CALLER.spec_bytes() =~= seq![65u8, 73u8, 87u8, 111u8, 114u8, 107u8, 115u8, 112u8, 97u8, 99u8, 101u8]);
}

proof fn lemma_bytes_can_copy_clipboard_selector()
    ensures
        CAN_COPY_CLIPBOARD_SELECTOR.spec_bytes() == seq![65u8, 73u8, 32u8, 67u8, 97u8, 110u8, 32u8, 67u8, 111u8, 112u8, 121u8],
{
    reveal_strlit("AI Can Copy");
    vstd::string::is_ascii_spec_bytes(CAN_COPY_CLIPBOARD_SELECTOR);
    assert(CAN_COPY_CLIPBOARD_SELECTOR.spec_bytes() =~= seq![65u8, 73u8, 32u8, 67u8, 97u8, 110u8, 32u8, 67u8, 111u8, 112u8, 121u8]);
}

proof fn lemma_bytes_check_file_format_selector()
    ensures
        CHECK_FILE_FORMAT_SELECTOR.spec_bytes() == seq![65u8, 73u8, 32u8, 67u8, 104u8, 101u8, 99u8, 107u8],
{
    reveal_strlit("AI Check");
    vstd::string::is_ascii_spec_bytes(CHECK_FILE_FORMAT_SELECTOR);
    assert(CHECK_FILE_FORMAT_SELECTOR.spec_bytes() =~= seq![65u8, 73u8, 32u8, 67u8, 104u8, 101u8, 99u8, 107u8]);
}

proof fn lemma_bytes_clone_clipboard_selector()
    ensures
        CLONE_CLIPBOARD_SELECTOR.spec_bytes() == seq![65u8, 73u8, 32u8, 67u8, 108u8, 111u8, 110u8, 101u8],
{
    reveal_strlit("AI Clone");
    vstd::string::is_ascii_spec_bytes(CLONE_CLIPBOARD_SELECTOR);
    assert(CLONE_CLIPBOARD_SELECTOR.spec_bytes() =~= seq![65u8, 73u8, 32u8, 67u8, 108u8, 111u8, 110u8, 101u8]);
}

proof fn lemma_bytes_deselect_tool_selector()
    ensures
        DESELECT_TOOL_SELECTOR.spec_bytes() == seq![65u8, 73u8, 32u8, 68u8, 101u8, 115u8, 101u8, 108u8, 101u8, 99u8, 116u8],
{
    reveal_strlit("AI Deselect");
    vstd::string::is_ascii_spec_bytes(DESELECT_TOOL_SELECTOR);
    assert(DESELECT_TOOL_SELECTOR.spec_bytes() =~= seq![65u8, 73u8, 32u8, 68u8, 101u8, 115u8, 101u8, 108u8, 101u8, 99u8, 116u8]);
}

proof fn lemma_bytes_dispose_clipboard_selector()
    ensures
        DISPOSE_CLIPBOARD_SELECTOR.spec_bytes() == seq![65u8, 73u8, 32u8, 68u8, 105u8, 115u8, 112u8, 111u8, 115u8, 101u8],
{
    reveal_strlit("AI Dispose");
    vstd::string::is_ascii_spec_bytes(DISPOSE_CLIPBOARD_SELECTOR);
    assert(DISPOSE_CLIPBOARD_SELECTOR.spec_bytes() =~= seq![65u8, 73u8, 32u8, 68u8, 105u8, 115u8, 112u8, 111u8, 115u8, 101u8]);
}

proof fn lemma_bytes_do_action_selector()
    ensures
        DO_ACTION_SELECTOR.spec_bytes() == seq![68u8, 111u8, 32u8, 65u8, 99u8, 116u8, 105u8, 111u8, 110u8],
{
    reveal_strlit("Do Action");
    vstd::string::is_ascii_spec_bytes(DO_ACTION_SELECTOR);
    assert(DO_ACTION_SELECTOR.spec_bytes() =~= seq![68u8, 111u8, 32u8, 65u8, 99u8, 116u8, 105u8, 111u8, 110u8]);
}

proof fn lemma_bytes_edit_live_effect_parameters_selector()
    ensures
        EDIT_LIVE_EFFECT_PARAMETERS_SELECTOR.spec_bytes() == seq![65u8, 73u8, 32u8, 69u8, 100u8, 105u8, 116u8, 32u8, 80u8, 97u8, 114u8, 97u8, 109u8, 101u8, 116u8, 101u8, 114u8, 115u8],
{
    reveal_strlit("AI Edit Parameters");
    vstd::string::is_ascii_spec_bytes(EDIT_LIVE_EFFECT_PARAMETERS_SELECTOR);
    assert(EDIT_LIVE_EFFECT_PARAMETERS_SELECTOR.spec_bytes() =~= seq![65u8, 73u8, 32u8, 69u8, 100u8, 105u8, 116u8, 32u8, 80u8, 97u8, 114u8, 97u8, 109u8, 101u8, 116u8, 101u8, 114u8, 115u8]);
}

proof fn lemma_bytes_edit_tool_options_selector()
    ensures
        EDIT_TOOL_OPTIONS_SELECTOR.spec_bytes() == seq![65u8, 73u8, 32u8, 69u8, 100u8, 105u8, 116u8, 32u8, 79u8, 112u8, 116u8, 105u8, 111u8, 110u8, 115u8],
{
    reveal_strlit("AI Edit Options");
    vstd::string::is_ascii_spec_bytes(EDIT_TOOL_OPTIONS_SELECTOR);
    assert(EDIT_TOOL_OPTIONS_SELECTOR.spec_bytes() =~= seq![65u8, 73u8, 32u8, 69u8, 100u8, 105u8, 116u8, 32u8, 79u8, 112u8, 116u8, 105u8, 111u8, 110u8, 115u8]);
}

proof fn lemma_bytes_get_file_format_parameters_selector()
    ensures
        GET_FILE_FORMAT_PARAMETERS_SELECTOR.spec_bytes() == seq![65u8, 73u8, 32u8, 71u8, 101u8, 116u8, 32u8, 80u8, 97u8, 114u8, 97u8, 109u8, 101u8, 116u8, 101u8, 114u8, 115u8],
{
    reveal_strlit("AI Get Parameters");
    vstd::string::is_ascii_spec_bytes(GET_FILE_FORMAT_PARAMETERS_SELECTOR);
    assert(GET_FILE_FORMAT_PARAMETERS_SELECTOR.spec_bytes() =~= seq![65u8, 73u8, 32u8, 71u8, 101u8, 116u8, 32u8, 80u8, 97u8, 114u8, 97u8, 109u8, 101u8, 116u8, 101u8, 114u8, 115u8]);
}

proof fn lemma_bytes_get_filter_parameters_selector()
    ensures
        GET_FILTER_PARAMETERS_SELECTOR.spec_bytes() == seq![71u8, 101u8, 116u8, 32u8, 80u8, 97u8, 114u8, 97u8, 109u8, 101u8, 116u8, 101u8, 114u8, 115u8],
{
    reveal_strlit("Get Parameters");
    vstd::string::is_ascii_spec_bytes(GET_FILTER_PARAMETERS_SELECTOR);
    assert(GET_FILTER_PARAMETERS_SELECTOR.spec_bytes() =~= seq![71u8, 101u8, 116u8, 32u8, 80u8, 97u8, 114u8, 97u8, 109u8, 101u8, 116u8, 101u8, 114u8, 115u8]);
}

proof fn lemma_bytes_go_clipboard_selector()
    ensures
        GO_CLIPBOARD_SELECTOR.spec_bytes() == seq![65u8, 73u8, 32u8, 71u8, 111u8, 32u8, 67u8, 108u8, 105u8, 112u8, 98u8, 111u8, 97u8, 114u8, 100u8],
{
    reveal_strlit("AI Go Clipboard");
    vstd::string::is_ascii_spec_bytes(GO_CLIPBOARD_SELECTOR);
    assert(GO_CLIPBOARD_SELECTOR.spec_bytes() =~= seq![65u8, 73u8, 32u8, 71u8, 111u8, 32u8, 67u8, 108u8, 105u8, 112u8, 98u8, 111u8, 97u8, 114u8, 100u8]);
}

proof fn lemma_bytes_go_file_format_selector()
    ensures
        GO_FILE_FORMAT_SELECTOR.spec_bytes() == seq![65u8, 73u8, 32u8, 71u8, 111u8],
{
    reveal_strlit("AI Go");
    vstd::string::is_ascii_spec_bytes(GO_FILE_FORMAT_SELECTOR);
    assert(GO_FILE_FORMAT_SELECTOR.spec_bytes() =~= seq![65u8, 73u8, 32u8, 71u8, 111u8]);
}

proof fn lemma_bytes_go_filter_selector()
    ensures
        GO_FILTER_SELECTOR.spec_bytes() == seq![71u8, 111u8, 32u8, 70u8, 105u8, 108u8, 116u8, 101u8, 114u8],
{
    reveal_strlit("Go Filter");
    vstd::string::is_ascii_spec_bytes(GO_FILTER_SELECTOR);
    assert(GO_FILTER_SELECTOR.spec_bytes() =~= seq![71u8, 111u8, 32u8, 70u8, 105u8, 108u8, 116u8, 101u8, 114u8]);
}

proof fn lemma_bytes_go_live_effect_selector()
    ensures
        GO_LIVE_EFFECT_SELECTOR.spec_bytes() == seq![65u8, 73u8, 32u8, 71u8, 111u8, 32u8, 76u8, 105u8, 118u8, 101u8, 32u8, 69u8, 102u8, 102u8, 101u8, 99u8, 116u8],
{
    reveal_strlit("AI Go Live Effect");
    vstd::string::is_ascii_spec_bytes(GO_LIVE_EFFECT_SELECTOR);
    assert(GO_LIVE_EFFECT_SELECTOR.spec_bytes() =~= seq![65u8, 73u8, 32u8, 71u8, 111u8, 32u8, 76u8, 105u8, 118u8, 101u8, 32u8, 69u8, 102u8, 102u8, 101u8, 99u8, 116u8]);
}

proof fn lemma_bytes_go_menu_item_selector()
    ensures
        GO_MENU_ITEM_SELECTOR.spec_bytes() == seq![71u8, 111u8, 32u8, 77u8, 101u8, 110u8, 117u8, 32u8, 73u8, 116u8, 101u8, 109u8],
{
    reveal_strlit("Go Menu Item");
    vstd::string::is_ascii_spec_bytes(GO_MENU_ITEM_SELECTOR);
    assert(GO_MENU_ITEM_SELECTOR.spec_bytes() =~= seq![71u8, 111u8, 32u8, 77u8, 101u8, 110u8, 117u8, 32u8, 73u8, 116u8, 101u8, 109u8]);
}

proof fn lemma_bytes_go_timer_selector()
    ensures
        GO_TIMER_SELECTOR.spec_bytes() == seq![65u8, 73u8, 32u8, 71u8, 111u8, 32u8, 84u8, 105u8, 109u8, 101u8, 114u8],
{
    reveal_strlit("AI Go Timer");
    vstd::string::is_ascii_spec_bytes(GO_TIMER_SELECTOR);
    assert(GO_TIMER_SELECTOR.spec_bytes() =~= seq![65u8, 73u8, 32u8, 71u8, 111u8, 32u8, 84u8, 105u8, 109u8, 101u8, 114u8]);
}

proof fn lemma_bytes_live_effect_adjust_colors_selector()
    ensures
        LIVE_EFFECT_ADJUST_COLORS_SELECTOR.spec_bytes() == seq![65u8, 73u8, 32u8, 65u8, 100u8, 106u8, 117u8, 115u8, 116u8, 32u8, 67u8, 111u8, 108u8, 111u8, 114u8, 115u8],
{
    reveal_strlit("AI Adjust Colors");
    vstd::string::is_ascii_spec_bytes(LIVE_EFFECT_ADJUST_COLORS_SELECTOR);
    assert(LIVE_EFFECT_ADJUST_COLORS_SELECTOR.spec_bytes() =~= seq![65u8, 73u8, 32u8, 65u8, 100u8, 106u8, 117u8, 115u8, 116u8, 32u8, 67u8, 111u8, 108u8, 111u8, 114u8, 115u8]);
}

proof fn lemma_bytes_live_effect_convert_color_space_selector()
    ensures
        LIVE_EFFECT_CONVERT_COLOR_SPACE_SELECTOR.spec_bytes() == seq![65u8, 73u8, 32u8, 67u8, 111u8, 110u8, 118u8, 101u8, 114u8, 116u8, 32u8, 67u8, 111u8, 108u8, 111u8, 114u8, 32u8, 83u8, 112u8, 97u8, 99u8, 101u8],
{
    reveal_strlit("AI Convert Color Space");
    vstd::string::is_ascii_spec_bytes(LIVE_EFFECT_CONVERT_COLOR_SPACE_SELECTOR);
    assert(LIVE_EFFECT_CONVERT_COLOR_SPACE_SELECTOR.spec_bytes() =~= seq![65u8, 73u8, 32u8, 67u8, 111u8, 110u8, 118u8, 101u8, 114u8, 116u8, 32u8, 67u8, 111u8, 108u8, 111u8, 114u8, 32u8, 83u8, 112u8, 97u8, 99u8, 101u8]);
}

proof fn lemma_bytes_live_effect_handle_merge_selector()
    ensures
        LIVE_EFFECT_HANDLE_MERGE_SELECTOR.spec_bytes() == seq![65u8, 73u8, 32u8, 72u8, 97u8, 110u8, 100u8, 108u8, 101u8, 32u8, 77u8, 101u8, 114u8, 103u8, 101u8],
{
    reveal_strlit("AI Handle Merge");
    vstd::string::is_ascii_spec_bytes(LIVE_EFFECT_HANDLE_MERGE_SELECTOR);
    assert(LIVE_EFFECT_HANDLE_MERGE_SELECTOR.spec_bytes() =~= seq![65u8, 73u8, 32u8, 72u8, 97u8, 110u8, 100u8, 108u8, 101u8, 32u8, 77u8, 101u8, 114u8, 103u8, 101u8]);
}

proof fn lemma_bytes_live_effect_input_type_selector()
    ensures
        LIVE_EFFECT_INPUT_TYPE_SELECTOR.spec_bytes() == seq![65u8, 73u8, 32u8, 71u8, 101u8, 116u8, 32u8, 73u8, 110u8, 112u8, 117u8, 116u8, 32u8, 84u8, 121u8, 112u8, 101u8],
{
    reveal_strlit("AI Get Input Type");
    vstd::string::is_ascii_spec_bytes(LIVE_EFFECT_INPUT_TYPE_SELECTOR);
    assert(LIVE_EFFECT_INPUT_TYPE_SELECTOR.spec_bytes() =~= seq![65u8, 73u8, 32u8, 71u8, 101u8, 116u8, 32u8, 73u8, 110u8, 112u8, 117u8, 116u8, 32u8, 84u8, 121u8, 112u8, 101u8]);
}

proof fn lemma_bytes_live_effect_interpolate_selector()
    ensures
        LIVE_EFFECT_INTERPOLATE_SELECTOR.spec_bytes() == seq![65u8, 73u8, 32u8, 73u8, 110u8, 116u8, 101u8, 114u8, 112u8, 111u8, 108u8, 97u8, 116u8, 101u8, 32u8, 80u8, 97u8, 114u8, 97u8, 109u8, 101u8, 116u8, 101u8, 114u8, 115u8],
{
    reveal_strlit("AI Interpolate Parameters");
    vstd::string::is_ascii_spec_bytes(LIVE_EFFECT_INTERPOLATE_SELECTOR);
    assert(LIVE_EFFECT_INTERPOLATE_SELECTOR.spec_bytes() =~= seq![65u8, 73u8, 32u8, 73u8, 110u8, 116u8, 101u8, 114u8, 112u8, 111u8, 108u8, 97u8, 116u8, 101u8, 32u8, 80u8, 97u8, 114u8, 97u8, 109u8, 101u8, 116u8, 101u8, 114u8, 115u8]);
}

proof fn lemma_bytes_live_effect_scale_parameters_selector()
    ensures
        LIVE_EFFECT_SCALE_PARAMETERS_SELECTOR.spec_bytes() == seq![65u8, 73u8, 32u8, 83u8, 99u8, 97u8, 108u8, 101u8, 32u8, 80u8, 97u8, 114u8, 97u8, 109u8, 101u8, 116u8, 101u8, 114u8, 115u8],
{
    reveal_strlit("AI Scale Parameters");
    vstd::string::is_ascii_spec_bytes(LIVE_EFFECT_SCALE_PARAMETERS_SELECTOR);
    assert(LIVE_EFFECT_SCALE_PARAMETERS_SELECTOR.spec_bytes() =~= seq![65u8, 73u8, 32u8, 83u8, 99u8, 97u8, 108u8, 101u8, 32u8, 80u8, 97u8, 114u8, 97u8, 109u8, 101u8, 116u8, 101u8, 114u8, 115u8]);
}

proof fn lemma_bytes_notify_edits_selector()
    ensures
        NOTIFY_EDITS_SELECTOR.spec_bytes() == seq![65u8, 73u8, 32u8, 78u8, 111u8, 116u8, 105u8, 102u8, 121u8, 32u8, 69u8, 100u8, 105u8, 116u8, 115u8],
{
    reveal_strlit("AI Notify Edits");
    vstd::string::is_ascii_spec_bytes(NOTIFY_EDITS_SELECTOR);
    assert(NOTIFY_EDITS_SELECTOR.spec_bytes() =~= seq![65u8, 73u8, 32u8, 78u8, 111u8, 116u8, 105u8, 102u8, 121u8, 32u8, 69u8, 100u8, 105u8, 116u8, 115u8]);
}

proof fn lemma_bytes_properties_acquire_selector()
    ensures
        PROPERTIES_ACQUIRE_SELECTOR.spec_bytes() == seq![65u8, 99u8, 113u8, 117u8, 105u8, 114u8, 101u8],
{
    reveal_strlit("Acquire");
    vstd::string::is_ascii_spec_bytes(PROPERTIES_ACQUIRE_SELECTOR);
    assert(PROPERTIES_ACQUIRE_SELECTOR.spec_bytes() =~= seq![65u8, 99u8, 113u8, 117u8, 105u8, 114u8, 101u8]);
}

proof fn lemma_bytes_properties_release_selector()
    ensures
        PROPERTIES_RELEASE_SELECTOR.spec_bytes() == seq![82u8, 101u8, 108u8, 101u8, 97u8, 115u8, 101u8],
{
    reveal_strlit("Release");
    vstd::string::is_ascii_spec_bytes(PROPERTIES_RELEASE_SELECTOR);
    assert(PROPERTIES_RELEASE_SELECTOR.spec_bytes() =~= seq![82u8, 101u8, 108u8, 101u8, 97u8, 115u8, 101u8]);
}

proof fn lemma_bytes_purge_caches_selector()
    ensures
        PURGE_CACHES_SELECTOR.spec_bytes() == seq![80u8, 108u8, 117u8, 103u8, 45u8, 105u8, 110u8, 32u8, 80u8, 117u8, 114u8, 103u8, 101u8],
{
    reveal_strlit("Plug-in Purge");
    vstd::string::is_ascii_spec_bytes(PURGE_CACHES_SELECTOR);
    assert(PURGE_CACHES_SELECTOR.spec_bytes() =~= seq![80u8, 108u8, 117u8, 103u8, 45u8, 105u8, 110u8, 32u8, 80u8, 117u8, 114u8, 103u8, 101u8]);
}

proof fn lemma_bytes_reload_selector()
    ensures
        RELOAD_SELECTOR.spec_bytes() == seq![82u8, 101u8, 108u8, 111u8, 97u8, 100u8],
{
    reveal_strlit("Reload");
    vstd::string::is_ascii_spec_bytes(RELOAD_SELECTOR);
    assert(RELOAD_SELECTOR.spec_bytes() =~= seq![82u8, 101u8, 108u8, 111u8, 97u8, 100u8]);
}

proof fn lemma_bytes_reselect_tool_selector()
    ensures
        RESELECT_TOOL_SELECTOR.spec_bytes() == seq![65u8, 73u8, 32u8, 82u8, 101u8, 115u8, 101u8, 108u8, 101u8, 99u8, 116u8],
{
    reveal_strlit("AI Reselect");
    vstd::string::is_ascii_spec_bytes(RESELECT_TOOL_SELECTOR);
    assert(RESELECT_TOOL_SELECTOR.spec_bytes() =~= seq![65u8, 73u8, 32u8, 82u8, 101u8, 115u8, 101u8, 108u8, 101u8, 99u8, 116u8]);
}

proof fn lemma_bytes_select_tool_selector()
    ensures
        SELECT_TOOL_SELECTOR.spec_bytes() == seq![65u8, 73u8, 32u8, 83u8, 101u8, 108u8, 101u8, 99u8, 116u8],
{
    reveal_strlit("AI Select");
    vstd::string::is_ascii_spec_bytes(SELECT_TOOL_SELECTOR);
    assert(SELECT_TOOL_SELECTOR.spec_bytes() =~= seq![65u8, 73u8, 32u8, 83u8, 101u8, 108u8, 101u8, 99u8, 116u8]);
}

proof fn lemma_bytes_shutdown_selector()
    ensures
        SHUTDOWN_SELECTOR.spec_bytes() == seq![83u8, 104u8, 117u8, 116u8, 100u8, 111u8, 119u8, 110u8],
{
    reveal_strlit("Shutdown");
    vstd::string::is_ascii_spec_bytes(SHUTDOWN_SELECTOR);
    assert(SHUTDOWN_SELECTOR.spec_bytes() =~= seq![83u8, 104u8, 117u8, 116u8, 100u8, 111u8, 119u8, 110u8]);
}

proof fn lemma_bytes_sp_access_caller()
    ensures
        SP_ACCESS_CALLER.spec_bytes() == seq![83u8, 80u8, 32u8, 65u8, 99u8, 99u8, 101u8, 115u8, 115u8],
{
    reveal_strlit("SP Access");
    vstd::string::is_ascii_spec_bytes(SP_ACCESS_CALLER);
    assert(SP_ACCESS_CALLER.spec_bytes() =~= seq![83u8, 80u8, 32u8, 65u8, 99u8, 99u8, 101u8, 115u8, 115u8]);
}

proof fn lemma_bytes_sp_cache_caller()
    ensures
        SP_CACHE_CALLER.spec_bytes() == seq![83u8, 80u8, 32u8, 67u8, 97u8, 99u8, 104u8, 101u8],
{
    reveal_strlit("SP Cache");
    vstd::string::is_ascii_spec_bytes(SP_CACHE_CALLER);
    assert(SP_CACHE_CALLER.spec_bytes() =~= seq![83u8, 80u8, 32u8, 67u8, 97u8, 99u8, 104u8, 101u8]);
}

proof fn lemma_bytes_sp_interface_caller()
    ensures
        SP_INTERFACE_CALLER.spec_bytes() == seq![83u8, 80u8, 32u8, 73u8, 110u8, 116u8, 101u8, 114u8, 102u8, 97u8, 99u8, 101u8],
{
    reveal_strlit("SP Interface");
    vstd::string::is_ascii_spec_bytes(SP_INTERFACE_CALLER);
    assert(SP_INTERFACE_CALLER.spec_bytes() =~= seq![83u8, 80u8, 32u8, 73u8, 110u8, 116u8, 101u8, 114u8, 102u8, 97u8, 99u8, 101u8]);
}

proof fn lemma_bytes_sp_properties_caller()
    ensures
        SP_PROPERTIES_CALLER.spec_bytes() == seq![83u8, 80u8, 32u8, 80u8, 114u8, 111u8, 112u8, 101u8, 114u8, 116u8, 105u8, 101u8, 115u8],
{
    reveal_strlit("SP Properties");
    vstd::string::is_ascii_spec_bytes(SP_PROPERTIES_CALLER);
    assert(SP_PROPERTIES_CALLER.spec_bytes() =~= seq![83u8, 80u8, 32u8, 80u8, 114u8, 111u8, 112u8, 101u8, 114u8, 116u8, 105u8, 101u8, 115u8]);
}

proof fn lemma_bytes_startup_selector()
    ensures
        STARTUP_SELECTOR.spec_bytes() == seq![83u8, 116u8, 97u8, 114u8, 116u8, 117u8, 112u8],
{
    reveal_strlit("Startup");
    vstd::string::is_ascii_spec_bytes(STARTUP_SELECTOR);
    assert(STARTUP_SELECTOR.spec_bytes() =~= seq![83u8, 116u8, 97u8, 114u8, 116u8, 117u8, 112u8]);
}

proof fn lemma_bytes_tool_decrease_diameter_selector()
    ensures
        TOOL_DECREASE_DIAMETER_SELECTOR.spec_bytes() == seq![65u8, 73u8, 32u8, 68u8, 101u8, 99u8, 114u8, 101u8, 97u8, 115u8, 101u8, 32u8, 68u8, 105u8, 97u8, 109u8, 101u8, 116u8, 101u8, 114u8],
{
    reveal_strlit("AI Decrease Diameter");
    vstd::string::is_ascii_spec_bytes(TOOL_DECREASE_DIAMETER_SELECTOR);
    assert(TOOL_DECREASE_DIAMETER_SELECTOR.spec_bytes() =~= seq![65u8, 73u8, 32u8, 68u8, 101u8, 99u8, 114u8, 101u8, 97u8, 115u8, 101u8, 32u8, 68u8, 105u8, 97u8, 109u8, 101u8, 116u8, 101u8, 114u8]);
}

proof fn lemma_bytes_tool_increase_diameter_selector()
    ensures
        TOOL_INCREASE_DIAMETER_SELECTOR.spec_bytes() == seq![65u8, 73u8, 32u8, 73u8, 110u8, 99u8, 114u8, 101u8, 97u8, 115u8, 101u8, 32u8, 68u8, 105u8, 97u8, 109u8, 101u8, 116u8, 101u8, 114u8],
{
    reveal_strlit("AI Increase Diameter");
    vstd::string::is_ascii_spec_bytes(TOOL_INCREASE_DIAMETER_SELECTOR);
    assert(TOOL_INCREASE_DIAMETER_SELECTOR.spec_bytes() =~= seq![65u8, 73u8, 32u8, 73u8, 110u8, 99u8, 114u8, 101u8, 97u8, 115u8, 101u8, 32u8, 68u8, 105u8, 97u8, 109u8, 101u8, 116u8, 101u8, 114u8]);
}

proof fn lemma_bytes_tool_mouse_down_selector()
    ensures
        TOOL_MOUSE_DOWN_SELECTOR.spec_bytes() == seq![65u8, 73u8, 32u8, 77u8, 111u8, 117u8, 115u8, 101u8, 32u8, 68u8, 111u8, 119u8, 110u8],
{
    reveal_strlit("AI Mouse Down");
    vstd::string::is_ascii_spec_bytes(TOOL_MOUSE_DOWN_SELECTOR);
    assert(TOOL_MOUSE_DOWN_SELECTOR.spec_bytes() =~= seq![65u8, 73u8, 32u8, 77u8, 111u8, 117u8, 115u8, 101u8, 32u8, 68u8, 111u8, 119u8, 110u8]);
}

proof fn lemma_bytes_tool_mouse_drag_selector()
    ensures
        TOOL_MOUSE_DRAG_SELECTOR.spec_bytes() == seq![65u8, 73u8, 32u8, 77u8, 111u8, 117u8, 115u8, 101u8, 32u8, 68u8, 114u8, 97u8, 103u8],
{
    reveal_strlit("AI Mouse Drag");
    vstd::string::is_ascii_spec_bytes(TOOL_MOUSE_DRAG_SELECTOR);
    assert(TOOL_MOUSE_DRAG_SELECTOR.spec_bytes() =~= seq![65u8, 73u8, 32u8, 77u8, 111u8, 117u8, 115u8, 101u8, 32u8, 68u8, 114u8, 97u8, 103u8]);
}

proof fn lemma_bytes_tool_mouse_up_selector()
    ensures
        TOOL_MOUSE_UP_SELECTOR.spec_bytes() == seq![65u8, 73u8, 32u8, 77u8, 111u8, 117u8, 115u8, 101u8, 32u8, 85u8, 112u8],
{
    reveal_strlit("AI Mouse Up");
    vstd::string::is_ascii_spec_bytes(TOOL_MOUSE_UP_SELECTOR);
    assert(TOOL_MOUSE_UP_SELECTOR.spec_bytes() =~= seq![65u8, 73u8, 32u8, 77u8, 111u8, 117u8, 115u8, 101u8, 32u8, 85u8, 112u8]);
}

proof fn lemma_bytes_track_tool_cursor_selector()
    ensures
        TRACK_TOOL_CURSOR_SELECTOR.spec_bytes() == seq![65u8, 73u8, 32u8, 84u8, 114u8, 97u8, 99u8, 107u8, 32u8, 67u8, 117u8, 114u8, 115u8, 111u8, 114u8],
{
    reveal_strlit("AI Track Cursor");
    vstd::string::is_ascii_spec_bytes(TRACK_TOOL_CURSOR_SELECTOR);
    assert(TRACK_TOOL_CURSOR_SELECTOR.spec_bytes() =~= seq![65u8, 73u8, 32u8, 84u8, 114u8, 97u8, 99u8, 107u8, 32u8, 67u8, 117u8, 114u8, 115u8, 111u8, 114u8]);
}

proof fn lemma_bytes_unload_selector()
    ensures
        UNLOAD_SELECTOR.spec_bytes() == seq![85u8, 110u8, 108u8, 111u8, 97u8, 100u8],
{
    reveal_strlit("Unload");
    vstd::string::is_ascii_spec_bytes(UNLOAD_SELECTOR);
    assert(UNLOAD_SELECTOR.spec_bytes() =~= seq![85u8, 110u8, 108u8, 111u8, 97u8, 100u8]);
}

proof fn lemma_bytes_update_art_selector()
    ensures
        UPDATE_ART_SELECTOR.spec_bytes() == seq![65u8, 73u8, 32u8, 85u8, 112u8, 100u8, 97u8, 116u8, 101u8, 32u8, 65u8, 114u8, 116u8],
{
    reveal_strlit("AI Update Art");
    vstd::string::is_ascii_spec_bytes(UPDATE_ART_SELECTOR);
    assert(UPDATE_ART_SELECTOR.spec_bytes() =~= seq![65u8, 73u8, 32u8, 85u8, 112u8, 100u8, 97u8, 116u8, 101u8, 32u8, 65u8, 114u8, 116u8]);
}

proof fn lemma_bytes_update_file_format_selector()
    ensures
        UPDATE_FILE_FORMAT_SELECTOR.spec_bytes() == seq![65u8, 73u8, 32u8, 85u8, 112u8, 100u8, 97u8, 116u8, 101u8],
{
    reveal_strlit("AI Update");
    vstd::string::is_ascii_spec_bytes(UPDATE_FILE_FORMAT_SELECTOR);
    assert(UPDATE_FILE_FORMAT_SELECTOR.spec_bytes() =~= seq![65u8, 73u8, 32u8, 85u8, 112u8, 100u8, 97u8, 116u8, 101u8]);
}

proof fn lemma_bytes_update_menu_item_selector()
    ensures
        UPDATE_MENU_ITEM_SELECTOR.spec_bytes() == seq![85u8, 112u8, 100u8, 97u8, 116u8, 101u8, 32u8, 77u8, 101u8, 110u8, 117u8, 32u8, 73u8, 116u8, 101u8, 109u8],
{
    reveal_strlit("Update Menu Item");
    vstd::string::is_ascii_spec_bytes(UPDATE_MENU_ITEM_SELECTOR);
    assert(UPDATE_MENU_ITEM_SELECTOR.spec_bytes() =~= seq![85u8, 112u8, 100u8, 97u8, 116u8, 101u8, 32u8, 77u8, 101u8, 110u8, 117u8, 32u8, 73u8, 116u8, 101u8, 109u8]);
}

proof fn lemma_bytes_workspace_default_selector()
    ensures
        WORKSPACE_DEFAULT_SELECTOR.spec_bytes() == seq![65u8, 73u8, 87u8, 83u8, 68u8, 101u8, 102u8, 97u8, 117u8, 108u8, 116u8],
{
    reveal_strlit("AIWSDefault");
    vstd::string::is_ascii_spec_bytes(WORKSPACE_DEFAULT_SELECTOR);
    assert(WORKSPACE_DEFAULT_SELECTOR.spec_bytes() =~= seq![65u8, 73u8, 87u8, 83u8, 68u8, 101u8, 102u8, 97u8, 117u8, 108u8, 116u8]);
}

proof fn lemma_bytes_workspace_restore_selector()
    ensures
        WORKSPACE_RESTORE_SELECTOR.spec_bytes() == seq![65u8, 73u8, 87u8, 83u8, 82u8, 101u8, 115u8, 116u8, 111u8, 114u8, 101u8],
{
    reveal_strlit("AIWSRestore");
    vstd::string::is_ascii_spec_bytes(WORKSPACE_RESTORE_SELECTOR);
    assert(WORKSPACE_RESTORE_SELECTOR.spec_bytes() =~= seq![65u8, 73u8, 87u8, 83u8, 82u8, 101u8, 115u8, 116u8, 111u8, 114u8, 101u8]);
}

proof fn lemma_bytes_workspace_write_selector()
    ensures
        WORKSPACE_WRITE_SELECTOR.spec_bytes() == seq![65u8, 73u8, 87u8, 83u8, 87u8, 114u8, 105u8, 116u8, 101u8],
{
    reveal_strlit("AIWSWrite");
    vstd::string::is_ascii_spec_bytes(WORKSPACE_WRITE_SELECTOR);
    assert(WORKSPACE_WRITE_SELECTOR.spec_bytes() =~= seq![65u8, 73u8, 87u8, 83u8, 87u8, 114u8, 105u8, 116u8, 101u8]);
}

/// The caller strings of the families, and the notifier caller, differ.
proof fn lemma_callers_distinct()
    ensures
        forall|f: Family, g: Family|
            #[trigger] family_caller(f).spec_bytes() == #[trigger] family_caller(g).spec_bytes() ==> f == g,
        forall|f: Family| #[trigger] family_caller(f).spec_bytes() != AI_NOTIFIER_CALLER.spec_bytes(),
{
    lemma_bytes_sp_access_caller();
    lemma_bytes_sp_interface_caller();
    lemma_bytes_sp_cache_caller();
    lemma_bytes_sp_properties_caller();
    lemma_bytes_ai_action_caller();
    lemma_bytes_ai_menu_caller();
    lemma_bytes_ai_filter_caller();
    lemma_bytes_ai_plugin_group_caller();
    lemma_bytes_ai_file_format_caller();
    lemma_bytes_ai_tool_caller();
    lemma_bytes_ai_live_effect_caller();
    lemma_bytes_ai_timer_caller();
    lemma_bytes_ai_clipboard_caller();
    lemma_bytes_ai_workspace_caller();
    lemma_bytes_ai_notifier_caller();
    assert(SP_ACCESS_CALLER.spec_bytes().len() != SP_INTERFACE_CALLER.spec_bytes().len());
    assert(SP_ACCESS_CALLER.spec_bytes().len() != SP_CACHE_CALLER.spec_bytes().len());
    assert(SP_ACCESS_CALLER.spec_bytes().len() != SP_PROPERTIES_CALLER.spec_bytes().len());
    assert(SP_ACCESS_CALLER.spec_bytes().len() != AI_ACTION_CALLER.spec_bytes().len());
    assert(SP_ACCESS_CALLER.spec_bytes().len() != AI_MENU_CALLER.spec_bytes().len());
    assert(SP_ACCESS_CALLER.spec_bytes()[0] != AI_FILTER_CALLER.spec_bytes()[0]);
    assert(SP_ACCESS_CALLER.spec_bytes().len() != AI_PLUGIN_GROUP_CALLER.spec_bytes().len());
    assert(SP_ACCESS_CALLER.spec_bytes().len() != AI_FILE_FORMAT_CALLER.spec_bytes().len());
    assert(SP_ACCESS_CALLER.spec_bytes().len() != AI_TOOL_CALLER.spec_bytes().len());
    assert(SP_ACCESS_CALLER.spec_bytes().len() != AI_LIVE_EFFECT_CALLER.spec_bytes().len());
    assert(SP_ACCESS_CALLER.spec_bytes().len() != AI_TIMER_CALLER.spec_bytes().len());
    assert(SP_ACCESS_CALLER.spec_bytes().len() != AI_CLIPBOARD_CALLER.spec_bytes().len());
    assert(SP_ACCESS_CALLER.spec_bytes().len() != AI_WORKSPACE_CALLER.spec_bytes().len());
    assert(SP_ACCESS_CALLER.spec_bytes().len() != AI_NOTIFIER_CALLER.spec_bytes().len());
    assert(SP_INTERFACE_CALLER.spec_bytes().len() != SP_CACHE_CALLER.spec_bytes().len());
    assert(SP_INTERFACE_CALLER.spec_bytes().len() != SP_PROPERTIES_CALLER.spec_bytes().len());
    assert(SP_INTERFACE_CALLER.spec_bytes().len() != AI_ACTION_CALLER.spec_bytes().len());
    assert(SP_INTERFACE_CALLER.spec_bytes().len() != AI_MENU_CALLER.spec_bytes().len());
    assert(SP_INTERFACE_CALLER.spec_bytes().len() != AI_FILTER_CALLER.spec_bytes().len());
    assert(SP_INTERFACE_CALLER.spec_bytes().len() != AI_PLUGIN_GROUP_CALLER.spec_bytes().len());
    assert(SP_INTERFACE_CALLER.spec_bytes().len() != AI_FILE_FORMAT_CALLER.spec_bytes().len());
    assert(SP_INTERFACE_CALLER.spec_bytes().len() != AI_TOOL_CALLER.spec_bytes().len());
    assert(SP_INTERFACE_CALLER.spec_bytes().len() != AI_LIVE_EFFECT_CALLER.spec_bytes().len());
    assert(SP_INTERFACE_CALLER.spec_bytes().len() != AI_TIMER_CALLER.spec_bytes().len());
    assert(SP_INTERFACE_CALLER.spec_bytes()[0] != AI_CLIPBOARD_CALLER.spec_bytes()[0]);
    assert(SP_INTERFACE_CALLER.spec_bytes().len() != AI_WORKSPACE_CALLER.spec_bytes().len());
    assert(SP_INTERFACE_CALLER.spec_bytes().len() != AI_NOTIFIER_CALLER.spec_bytes().len());
    assert(SP_CACHE_CALLER.spec_bytes().len() != SP_PROPERTIES_CALLER.spec_bytes().len());
    assert(SP_CACHE_CALLER.spec_bytes().len() != AI_ACTION_CALLER.spec_bytes().len());
    assert(SP_CACHE_CALLER.spec_bytes().len() != AI_MENU_CALLER.spec_bytes().len());
    assert(SP_CACHE_CALLER.spec_bytes().len() != AI_FILTER_CALLER.spec_bytes().len());
    assert(SP_CACHE_CALLER.spec_bytes().len() != AI_PLUGIN_GROUP_CALLER.spec_bytes().len());
    assert(SP_CACHE_CALLER.spec_bytes().len() != AI_FILE_FORMAT_CALLER.spec_bytes().len());
    assert(SP_CACHE_CALLER.spec_bytes().len() != AI_TOOL_CALLER.spec_bytes().len());
    assert(SP_CACHE_CALLER.spec_bytes().len() != AI_LIVE_EFFECT_CALLER.spec_bytes().len());
    assert(SP_CACHE_CALLER.spec_bytes()[0] != AI_TIMER_CALLER.spec_bytes()[0]);
    assert(SP_CACHE_CALLER.spec_bytes().len() != AI_CLIPBOARD_CALLER.spec_bytes().len());
    assert(SP_CACHE_CALLER.spec_bytes().len() != AI_WORKSPACE_CALLER.spec_bytes().len());
    assert(SP_CACHE_CALLER.spec_bytes().len() != AI_NOTIFIER_CALLER.spec_bytes().len());
    assert(SP_PROPERTIES_CALLER.spec_bytes().len() != AI_ACTION_CALLER.spec_bytes().len());
    assert(SP_PROPERTIES_CALLER.spec_bytes().len() != AI_MENU_CALLER.spec_bytes().len());
    assert(SP_PROPERTIES_CALLER.spec_bytes().len() != AI_FILTER_CALLER.spec_bytes().len());
    assert(SP_PROPERTIES_CALLER.spec_bytes().len() != AI_PLUGIN_GROUP_CALLER.spec_bytes().len());
    assert(SP_PROPERTIES_CALLER.spec_bytes().len() != AI_FILE_FORMAT_CALLER.spec_bytes().len());
    assert(SP_PROPERTIES_CALLER.spec_bytes().len() != AI_TOOL_CALLER.spec_bytes().len());
    assert(SP_PROPERTIES_CALLER.spec_bytes().len() != AI_LIVE_EFFECT_CALLER.spec_bytes().len());
    assert(SP_PROPERTIES_CALLER.spec_bytes().len() != AI_TIMER_CALLER.spec_bytes().len());
    assert(SP_PROPERTIES_CALLER.spec_bytes().len() != AI_CLIPBOARD_CALLER.spec_bytes().len());
    assert(SP_PROPERTIES_CALLER.spec_bytes().len() != AI_WORKSPACE_CALLER.spec_bytes().len());
    assert(SP_PROPERTIES_CALLER.spec_bytes().len() != AI_NOTIFIER_CALLER.spec_bytes().len());
    assert(AI_ACTION_CALLER.spec_bytes().len() != AI_MENU_CALLER.spec_bytes().len());
    assert(AI_ACTION_CALLER.spec_bytes().len() != AI_FILTER_CALLER.spec_bytes().len());
    assert(AI_ACTION_CALLER.spec_bytes().len() != AI_PLUGIN_GROUP_CALLER.spec_bytes().len());
    assert(AI_ACTION_CALLER.spec_bytes()[1] != AI_FILE_FORMAT_CALLER.spec_bytes()[1]);
    assert(AI_ACTION_CALLER.spec_bytes().len() != AI_TOOL_CALLER.spec_bytes().len());
    assert(AI_ACTION_CALLER.spec_bytes()[1] != AI_LIVE_EFFECT_CALLER.spec_bytes()[1]);
    assert(AI_ACTION_CALLER.spec_bytes().len() != AI_TIMER_CALLER.spec_bytes().len());
    assert(AI_ACTION_CALLER.spec_bytes().len() != AI_CLIPBOARD_CALLER.spec_bytes().len());
    assert(AI_ACTION_CALLER.spec_bytes().len() != AI_WORKSPACE_CALLER.spec_bytes().len());
    assert(AI_ACTION_CALLER.spec_bytes().len() != AI_NOTIFIER_CALLER.spec_bytes().len());
    assert(AI_MENU_CALLER.spec_bytes().len() != AI_FILTER_CALLER.spec_bytes().len());
    assert(AI_MENU_CALLER.spec_bytes().len() != AI_PLUGIN_GROUP_CALLER.spec_bytes().len());
    assert(AI_MENU_CALLER.spec_bytes().len() != AI_FILE_FORMAT_CALLER.spec_bytes().len());
    assert(AI_MENU_CALLER.spec_bytes()[3] != AI_TOOL_CALLER.spec_bytes()[3]);
    assert(AI_MENU_CALLER.spec_bytes().len() != AI_LIVE_EFFECT_CALLER.spec_bytes().len());
    assert(AI_MENU_CALLER.spec_bytes().len() != AI_TIMER_CALLER.spec_bytes().len());
    assert(AI_MENU_CALLER.spec_bytes().len() != AI_CLIPBOARD_CALLER.spec_bytes().len());
    assert(AI_MENU_CALLER.spec_bytes().len() != AI_WORKSPACE_CALLER.spec_bytes().len());
    assert(AI_MENU_CALLER.spec_bytes().len() != AI_NOTIFIER_CALLER.spec_bytes().len());
    assert(AI_FILTER_CALLER.spec_bytes().len() != AI_PLUGIN_GROUP_CALLER.spec_bytes().len());
    assert(AI_FILTER_CALLER.spec_bytes().len() != AI_FILE_FORMAT_CALLER.spec_bytes().len());
    assert(AI_FILTER_CALLER.spec_bytes().len() != AI_TOOL_CALLER.spec_bytes().len());
    assert(AI_FILTER_CALLER.spec_bytes().len() != AI_LIVE_EFFECT_CALLER.spec_bytes().len());
    assert(AI_FILTER_CALLER.spec_bytes().len() != AI_TIMER_CALLER.spec_bytes().len());
    assert(AI_FILTER_CALLER.spec_bytes().len() != AI_CLIPBOARD_CALLER.spec_bytes().len());
    assert(AI_FILTER_CALLER.spec_bytes().len() != AI_WORKSPACE_CALLER.spec_bytes().len());
    assert(AI_FILTER_CALLER.spec_bytes().len() != AI_NOTIFIER_CALLER.spec_bytes().len());
    assert(AI_PLUGIN_GROUP_CALLER.spec_bytes().len() != AI_FILE_FORMAT_CALLER.spec_bytes().len());
    assert(AI_PLUGIN_GROUP_CALLER.spec_bytes().len() != AI_TOOL_CALLER.spec_bytes().len());
    assert(AI_PLUGIN_GROUP_CALLER.spec_bytes().len() != AI_LIVE_EFFECT_CALLER.spec_bytes().len());
    assert(AI_PLUGIN_GROUP_CALLER.spec_bytes().len() != AI_TIMER_CALLER.spec_bytes().len());
    assert(AI_PLUGIN_GROUP_CALLER.spec_bytes().len() != AI_CLIPBOARD_CALLER.spec_bytes().len());
    assert(AI_PLUGIN_GROUP_CALLER.spec_bytes().len() != AI_WORKSPACE_CALLER.spec_bytes().len());
    assert(AI_PLUGIN_GROUP_CALLER.spec_bytes().len() != AI_NOTIFIER_CALLER.spec_bytes().len());
    assert(AI_FILE_FORMAT_CALLER.spec_bytes().len() != AI_TOOL_CALLER.spec_bytes().len());
    assert(AI_FILE_FORMAT_CALLER.spec_bytes()[3] != AI_LIVE_EFFECT_CALLER.spec_bytes()[3]);
    assert(AI_FILE_FORMAT_CALLER.spec_bytes().len() != AI_TIMER_CALLER.spec_bytes().len());
    assert(AI_FILE_FORMAT_CALLER.spec_bytes().len() != AI_CLIPBOARD_CALLER.spec_bytes().len());
    assert(AI_FILE_FORMAT_CALLER.spec_bytes().len() != AI_WORKSPACE_CALLER.spec_bytes().len());
    assert(AI_FILE_FORMAT_CALLER.spec_bytes().len() != AI_NOTIFIER_CALLER.spec_bytes().len());
    assert(AI_TOOL_CALLER.spec_bytes().len() != AI_LIVE_EFFECT_CALLER.spec_bytes().len());
    assert(AI_TOOL_CALLER.spec_bytes().len() != AI_TIMER_CALLER.spec_bytes().len());
    assert(AI_TOOL_CALLER.spec_bytes().len() != AI_CLIPBOARD_CALLER.spec_bytes().len());
    assert(AI_TOOL_CALLER.spec_bytes().len() != AI_WORKSPACE_CALLER.spec_bytes().len());
    assert(AI_TOOL_CALLER.spec_bytes().len() != AI_NOTIFIER_CALLER.spec_bytes().len());
    assert(AI_LIVE_EFFECT_CALLER.spec_bytes().len() != AI_TIMER_CALLER.spec_bytes().len());
    assert(AI_LIVE_EFFECT_CALLER.spec_bytes().len() != AI_CLIPBOARD_CALLER.spec_bytes().len());
    assert(AI_LIVE_EFFECT_CALLER.spec_bytes().len() != AI_WORKSPACE_CALLER.spec_bytes().len());
    assert(AI_LIVE_EFFECT_CALLER.spec_bytes().len() != AI_NOTIFIER_CALLER.spec_bytes().len());
    assert(AI_TIMER_CALLER.spec_bytes().len() != AI_CLIPBOARD_CALLER.spec_bytes().len());
    assert(AI_TIMER_CALLER.spec_bytes().len() != AI_WORKSPACE_CALLER.spec_bytes().len());
    assert(AI_TIMER_CALLER.spec_bytes().len() != AI_NOTIFIER_CALLER.spec_bytes().len());
    assert(AI_CLIPBOARD_CALLER.spec_bytes().len() != AI_WORKSPACE_CALLER.spec_bytes().len());
    assert(AI_CLIPBOARD_CALLER.spec_bytes().len() != AI_NOTIFIER_CALLER.spec_bytes().len());
    assert(AI_WORKSPACE_CALLER.spec_bytes()[2] != AI_NOTIFIER_CALLER.spec_bytes()[2]);
}

proof fn lemma_selectors_distinct_access()
    ensures
        forall|e: Event, d: Event|
            family(e) == Family::Access && family(d) == Family::Access && #[trigger] selector_of(e).spec_bytes()
                == #[trigger] selector_of(d).spec_bytes() ==> e == d,
{
    lemma_bytes_unload_selector();
    lemma_bytes_reload_selector();
    assert(UNLOAD_SELECTOR.spec_bytes()[0] != RELOAD_SELECTOR.spec_bytes()[0]);
}

proof fn lemma_selectors_distinct_interface()
    ensures
        forall|e: Event, d: Event|
            family(e) == Family::Interface && family(d) == Family::Interface && #[trigger] selector_of(e).spec_bytes()
                == #[trigger] selector_of(d).spec_bytes() ==> e == d,
{
    lemma_bytes_about_selector();
    lemma_bytes_startup_selector();
    lemma_bytes_shutdown_selector();
    assert(ABOUT_SELECTOR.spec_bytes().len() != STARTUP_SELECTOR.spec_bytes().len());
    assert(ABOUT_SELECTOR.spec_bytes().len() != SHUTDOWN_SELECTOR.spec_bytes().len());
    assert(STARTUP_SELECTOR.spec_bytes().len() != SHUTDOWN_SELECTOR.spec_bytes().len());
}

proof fn lemma_selectors_distinct_cache()
    ensures
        forall|e: Event, d: Event|
            family(e) == Family::Cache && family(d) == Family::Cache && #[trigger] selector_of(e).spec_bytes()
                == #[trigger] selector_of(d).spec_bytes() ==> e == d,
{
    lemma_bytes_purge_caches_selector();
}

proof fn lemma_selectors_distinct_properties()
    ensures
        forall|e: Event, d: Event|
            family(e) == Family::Properties && family(d) == Family::Properties && #[trigger] selector_of(e).spec_bytes()
                == #[trigger] selector_of(d).spec_bytes() ==> e == d,
{
    lemma_bytes_properties_acquire_selector();
    lemma_bytes_properties_release_selector();
    assert(PROPERTIES_ACQUIRE_SELECTOR.spec_bytes()[0] != PROPERTIES_RELEASE_SELECTOR.spec_bytes()[0]);
}

proof fn lemma_selectors_distinct_action()
    ensures
        forall|e: Event, d: Event|
            family(e) == Family::Action && family(d) == Family::Action && #[trigger] selector_of(e).spec_bytes()
                == #[trigger] selector_of(d).spec_bytes() ==> e == d,
{
    lemma_bytes_do_action_selector();
}

proof fn lemma_selectors_distinct_menu()
    ensures
        forall|e: Event, d: Event|
            family(e) == Family::Menu && family(d) == Family::Menu && #[trigger] selector_of(e).spec_bytes()
                == #[trigger] selector_of(d).spec_bytes() ==> e == d,
{
    lemma_bytes_go_menu_item_selector();
    lemma_bytes_update_menu_item_selector();
    assert(GO_MENU_ITEM_SELECTOR.spec_bytes().len() != UPDATE_MENU_ITEM_SELECTOR.spec_bytes().len());
}

proof fn lemma_selectors_distinct_filter()
    ensures
        forall|e: Event, d: Event|
            family(e) == Family::Filter && family(d) == Family::Filter && #[trigger] selector_of(e).spec_bytes()
                == #[trigger] selector_of(d).spec_bytes() ==> e == d,
{
    lemma_bytes_get_filter_parameters_selector();
    lemma_bytes_go_filter_selector();
    assert(GET_FILTER_PARAMETERS_SELECTOR.spec_bytes().len() != GO_FILTER_SELECTOR.spec_bytes().len());
}

proof fn lemma_selectors_distinct_plugin_group()
    ensures
        forall|e: Event, d: Event|
            family(e) == Family::PluginGroup && family(d) == Family::PluginGroup && #[trigger] selector_of(e).spec_bytes()
                == #[trigger] selector_of(d).spec_bytes() ==> e == d,
{
    lemma_bytes_notify_edits_selector();
    lemma_bytes_update_art_selector();
    assert(NOTIFY_EDITS_SELECTOR.spec_bytes().len() != UPDATE_ART_SELECTOR.spec_bytes().len());
}

proof fn lemma_selectors_distinct_file_format()
    ensures
        forall|e: Event, d: Event|
            family(e) == Family::FileFormat && family(d) == Family::FileFormat && #[trigger] selector_of(e).spec_bytes()
                == #[trigger] selector_of(d).spec_bytes() ==> e == d,
{
    lemma_bytes_get_file_format_parameters_selector();
    lemma_bytes_go_file_format_selector();
    lemma_bytes_check_file_format_selector();
    lemma_bytes_update_file_format_selector();
    lemma_bytes_do_action_selector();
    assert(GET_FILE_FORMAT_PARAMETERS_SELECTOR.spec_bytes().len() != GO_FILE_FORMAT_SELECTOR.spec_bytes().len());
    assert(GET_FILE_FORMAT_PARAMETERS_SELECTOR.spec_bytes().len() != CHECK_FILE_FORMAT_SELECTOR.spec_bytes().len());
    assert(GET_FILE_FORMAT_PARAMETERS_SELECTOR.spec_bytes().len() != UPDATE_FILE_FORMAT_SELECTOR.spec_bytes().len());
    assert(GET_FILE_FORMAT_PARAMETERS_SELECTOR.spec_bytes().len() != DO_ACTION_SELECTOR.spec_bytes().len());
    assert(GO_FILE_FORMAT_SELECTOR.spec_bytes().len() != CHECK_FILE_FORMAT_SELECTOR.spec_bytes().len());
    assert(GO_FILE_FORMAT_SELECTOR.spec_bytes().len() != UPDATE_FILE_FORMAT_SELECTOR.spec_bytes().len());
    assert(GO_FILE_FORMAT_SELECTOR.spec_bytes().len() != DO_ACTION_SELECTOR.spec_bytes().len());
    assert(CHECK_FILE_FORMAT_SELECTOR.spec_bytes().len() != UPDATE_FILE_FORMAT_SELECTOR.spec_bytes().len());
    assert(CHECK_FILE_FORMAT_SELECTOR.spec_bytes().len() != DO_ACTION_SELECTOR.spec_bytes().len());
    assert(UPDATE_FILE_FORMAT_SELECTOR.spec_bytes()[0] != DO_ACTION_SELECTOR.spec_bytes()[0]);
}

proof fn lemma_selectors_distinct_tool()
    ensures
        forall|e: Event, d: Event|
            family(e) == Family::Tool && family(d) == Family::Tool && #[trigger] selector_of(e).spec_bytes()
                == #[trigger] selector_of(d).spec_bytes() ==> e == d,
{
    lemma_bytes_edit_tool_options_selector();
    lemma_bytes_track_tool_cursor_selector();
    lemma_bytes_tool_mouse_down_selector();
    lemma_bytes_tool_mouse_drag_selector();
    lemma_bytes_tool_mouse_up_selector();
    lemma_bytes_select_tool_selector();
    lemma_bytes_deselect_tool_selector();
    lemma_bytes_reselect_tool_selector();
    lemma_bytes_tool_decrease_diameter_selector();
    lemma_bytes_tool_increase_diameter_selector();
    assert(EDIT_TOOL_OPTIONS_SELECTOR.spec_bytes()[3] != TRACK_TOOL_CURSOR_SELECTOR.spec_bytes()[3]);
    assert(EDIT_TOOL_OPTIONS_SELECTOR.spec_bytes().len() != TOOL_MOUSE_DOWN_SELECTOR.spec_bytes().len());
    assert(EDIT_TOOL_OPTIONS_SELECTOR.spec_bytes().len() != TOOL_MOUSE_DRAG_SELECTOR.spec_bytes().len());
    assert(EDIT_TOOL_OPTIONS_SELECTOR.spec_bytes().len() != TOOL_MOUSE_UP_SELECTOR.spec_bytes().len());
    assert(EDIT_TOOL_OPTIONS_SELECTOR.spec_bytes().len() != SELECT_TOOL_SELECTOR.spec_bytes().len());
    assert(EDIT_TOOL_OPTIONS_SELECTOR.spec_bytes().len() != DESELECT_TOOL_SELECTOR.spec_bytes().len());
    assert(EDIT_TOOL_OPTIONS_SELECTOR.spec_bytes().len() != RESELECT_TOOL_SELECTOR.spec_bytes().len());
    assert(EDIT_TOOL_OPTIONS_SELECTOR.spec_bytes().len() != TOOL_DECREASE_DIAMETER_SELECTOR.spec_bytes().len());
    assert(EDIT_TOOL_OPTIONS_SELECTOR.spec_bytes().len() != TOOL_INCREASE_DIAMETER_SELECTOR.spec_bytes().len());
    assert(TRACK_TOOL_CURSOR_SELECTOR.spec_bytes().len() != TOOL_MOUSE_DOWN_SELECTOR.spec_bytes().len());
    assert(TRACK_TOOL_CURSOR_SELECTOR.spec_bytes().len() != TOOL_MOUSE_DRAG_SELECTOR.spec_bytes().len());
    assert(TRACK_TOOL_CURSOR_SELECTOR.spec_bytes().len() != TOOL_MOUSE_UP_SELECTOR.spec_bytes().len());
    assert(TRACK_TOOL_CURSOR_SELECTOR.spec_bytes().len() != SELECT_TOOL_SELECTOR.spec_bytes().len());
    assert(TRACK_TOOL_CURSOR_SELECTOR.spec_bytes().len() != DESELECT_TOOL_SELECTOR.spec_bytes().len());
    assert(TRACK_TOOL_CURSOR_SELECTOR.spec_bytes().len() != RESELECT_TOOL_SELECTOR.spec_bytes().len());
    assert(TRACK_TOOL_CURSOR_SELECTOR.spec_bytes().len() != TOOL_DECREASE_DIAMETER_SELECTOR.spec_bytes().len());
    assert(TRACK_TOOL_CURSOR_SELECTOR.spec_bytes().len() != TOOL_INCREASE_DIAMETER_SELECTOR.spec_bytes().len());
    assert(TOOL_MOUSE_DOWN_SELECTOR.spec_bytes()[10] != TOOL_MOUSE_DRAG_SELECTOR.spec_bytes()[10]);
    assert(TOOL_MOUSE_DOWN_SELECTOR.spec_bytes().len() != TOOL_MOUSE_UP_SELECTOR.spec_bytes().len());
    assert(TOOL_MOUSE_DOWN_SELECTOR.spec_bytes().len() != SELECT_TOOL_SELECTOR.spec_bytes().len());
    assert(TOOL_MOUSE_DOWN_SELECTOR.spec_bytes().len() != DESELECT_TOOL_SELECTOR.spec_bytes().len());
    assert(TOOL_MOUSE_DOWN_SELECTOR.spec_bytes().len() != RESELECT_TOOL_SELECTOR.spec_bytes().len());
    assert(TOOL_MOUSE_DOWN_SELECTOR.spec_bytes().len() != TOOL_DECREASE_DIAMETER_SELECTOR.spec_bytes().len());
    assert(TOOL_MOUSE_DOWN_SELECTOR.spec_bytes().len() != TOOL_INCREASE_DIAMETER_SELECTOR.spec_bytes().len());
    assert(TOOL_MOUSE_DRAG_SELECTOR.spec_bytes().len() != TOOL_MOUSE_UP_SELECTOR.spec_bytes().len());
    assert(TOOL_MOUSE_DRAG_SELECTOR.spec_bytes().len() != SELECT_TOOL_SELECTOR.spec_bytes().len());
    assert(TOOL_MOUSE_DRAG_SELECTOR.spec_bytes().len() != DESELECT_TOOL_SELECTOR.spec_bytes().len());
    assert(TOOL_MOUSE_DRAG_SELECTOR.spec_bytes().len() != RESELECT_TOOL_SELECTOR.spec_bytes().len());
    assert(TOOL_MOUSE_DRAG_SELECTOR.spec_bytes().len() != TOOL_DECREASE_DIAMETER_SELECTOR.spec_bytes().len());
    assert(TOOL_MOUSE_DRAG_SELECTOR.spec_bytes().len() != TOOL_INCREASE_DIAMETER_SELECTOR.spec_bytes().len());
    assert(TOOL_MOUSE_UP_SELECTOR.spec_bytes().len() != SELECT_TOOL_SELECTOR.spec_bytes().len());
    assert(TOOL_MOUSE_UP_SELECTOR.spec_bytes()[3] != DESELECT_TOOL_SELECTOR.spec_bytes()[3]);
    assert(TOOL_MOUSE_UP_SELECTOR.spec_bytes()[3] != RESELECT_TOOL_SELECTOR.spec_bytes()[3]);
    assert(TOOL_MOUSE_UP_SELECTOR.spec_bytes().len() != TOOL_DECREASE_DIAMETER_SELECTOR.spec_bytes().len());
    assert(TOOL_MOUSE_UP_SELECTOR.spec_bytes().len() != TOOL_INCREASE_DIAMETER_SELECTOR.spec_bytes().len());
    assert(SELECT_TOOL_SELECTOR.spec_bytes().len() != DESELECT_TOOL_SELECTOR.spec_bytes().len());
    assert(SELECT_TOOL_SELECTOR.spec_bytes().len() != RESELECT_TOOL_SELECTOR.spec_bytes().len());
    assert(SELECT_TOOL_SELECTOR.spec_bytes().len() != TOOL_DECREASE_DIAMETER_SELECTOR.spec_bytes().len());
    assert(SELECT_TOOL_SELECTOR.spec_bytes().len() != TOOL_INCREASE_DIAMETER_SELECTOR.spec_bytes().len());
    assert(DESELECT_TOOL_SELECTOR.spec_bytes()[3] != RESELECT_TOOL_SELECTOR.spec_bytes()[3]);
    assert(DESELECT_TOOL_SELECTOR.spec_bytes().len() != TOOL_DECREASE_DIAMETER_SELECTOR.spec_bytes().len());
    assert(DESELECT_TOOL_SELECTOR.spec_bytes().len() != TOOL_INCREASE_DIAMETER_SELECTOR.spec_bytes().len());
    assert(RESELECT_TOOL_SELECTOR.spec_bytes().len() != TOOL_DECREASE_DIAMETER_SELECTOR.spec_bytes().len());
    assert(RESELECT_TOOL_SELECTOR.spec_bytes().len() != TOOL_INCREASE_DIAMETER_SELECTOR.spec_bytes().len());
    assert(TOOL_DECREASE_DIAMETER_SELECTOR.spec_bytes()[3] != TOOL_INCREASE_DIAMETER_SELECTOR.spec_bytes()[3]);
}

proof fn lemma_selectors_distinct_live_effect()
    ensures
        forall|e: Event, d: Event|
            family(e) == Family::LiveEffect && family(d) == Family::LiveEffect && #[trigger] selector_of(e).spec_bytes()
                == #[trigger] selector_of(d).spec_bytes() ==> e == d,
{
    lemma_bytes_edit_live_effect_parameters_selector();
    lemma_bytes_go_live_effect_selector();
    lemma_bytes_live_effect_interpolate_selector();
    lemma_bytes_live_effect_input_type_selector();
    lemma_bytes_live_effect_scale_parameters_selector();
    lemma_bytes_live_effect_convert_color_space_selector();
    lemma_bytes_live_effect_adjust_colors_selector();
    lemma_bytes_live_effect_handle_merge_selector();
    assert(EDIT_LIVE_EFFECT_PARAMETERS_SELECTOR.spec_bytes().len() != GO_LIVE_EFFECT_SELECTOR.spec_bytes().len());
    assert(EDIT_LIVE_EFFECT_PARAMETERS_SELECTOR.spec_bytes().len() != LIVE_EFFECT_INTERPOLATE_SELECTOR.spec_bytes().len());
    assert(EDIT_LIVE_EFFECT_PARAMETERS_SELECTOR.spec_bytes().len() != LIVE_EFFECT_INPUT_TYPE_SELECTOR.spec_bytes().len());
    assert(EDIT_LIVE_EFFECT_PARAMETERS_SELECTOR.spec_bytes().len() != LIVE_EFFECT_SCALE_PARAMETERS_SELECTOR.spec_bytes().len());
    assert(EDIT_LIVE_EFFECT_PARAMETERS_SELECTOR.spec_bytes().len() != LIVE_EFFECT_CONVERT_COLOR_SPACE_SELECTOR.spec_bytes().len());
    assert(EDIT_LIVE_EFFECT_PARAMETERS_SELECTOR.spec_bytes().len() != LIVE_EFFECT_ADJUST_COLORS_SELECTOR.spec_bytes().len());
    assert(EDIT_LIVE_EFFECT_PARAMETERS_SELECTOR.spec_bytes().len() != LIVE_EFFECT_HANDLE_MERGE_SELECTOR.spec_bytes().len());
    assert(GO_LIVE_EFFECT_SELECTOR.spec_bytes().len() != LIVE_EFFECT_INTERPOLATE_SELECTOR.spec_bytes().len());
    assert(GO_LIVE_EFFECT_SELECTOR.spec_bytes()[4] != LIVE_EFFECT_INPUT_TYPE_SELECTOR.spec_bytes()[4]);
    assert(GO_LIVE_EFFECT_SELECTOR.spec_bytes().len() != LIVE_EFFECT_SCALE_PARAMETERS_SELECTOR.spec_bytes().len());
    assert(GO_LIVE_EFFECT_SELECTOR.spec_bytes().len() != LIVE_EFFECT_CONVERT_COLOR_SPACE_SELECTOR.spec_bytes().len());
    assert(GO_LIVE_EFFECT_SELECTOR.spec_bytes().len() != LIVE_EFFECT_ADJUST_COLORS_SELECTOR.spec_bytes().len());
    assert(GO_LIVE_EFFECT_SELECTOR.spec_bytes().len() != LIVE_EFFECT_HANDLE_MERGE_SELECTOR.spec_bytes().len());
    assert(LIVE_EFFECT_INTERPOLATE_SELECTOR.spec_bytes().len() != LIVE_EFFECT_INPUT_TYPE_SELECTOR.spec_bytes().len());
    assert(LIVE_EFFECT_INTERPOLATE_SELECTOR.spec_bytes().len() != LIVE_EFFECT_SCALE_PARAMETERS_SELECTOR.spec_bytes().len());
    assert(LIVE_EFFECT_INTERPOLATE_SELECTOR.spec_bytes().len() != LIVE_EFFECT_CONVERT_COLOR_SPACE_SELECTOR.spec_bytes().len());
    assert(LIVE_EFFECT_INTERPOLATE_SELECTOR.spec_bytes().len() != LIVE_EFFECT_ADJUST_COLORS_SELECTOR.spec_bytes().len());
    assert(LIVE_EFFECT_INTERPOLATE_SELECTOR.spec_bytes().len() != LIVE_EFFECT_HANDLE_MERGE_SELECTOR.spec_bytes().len());
    assert(LIVE_EFFECT_INPUT_TYPE_SELECTOR.spec_bytes().len() != LIVE_EFFECT_SCALE_PARAMETERS_SELECTOR.spec_bytes().len());
    assert(LIVE_EFFECT_INPUT_TYPE_SELECTOR.spec_bytes().len() != LIVE_EFFECT_CONVERT_COLOR_SPACE_SELECTOR.spec_bytes().len());
    assert(LIVE_EFFECT_INPUT_TYPE_SELECTOR.spec_bytes().len() != LIVE_EFFECT_ADJUST_COLORS_SELECTOR.spec_bytes().len());
    assert(LIVE_EFFECT_INPUT_TYPE_SELECTOR.spec_bytes().len() != LIVE_EFFECT_HANDLE_MERGE_SELECTOR.spec_bytes().len());
    assert(LIVE_EFFECT_SCALE_PARAMETERS_SELECTOR.spec_bytes().len() != LIVE_EFFECT_CONVERT_COLOR_SPACE_SELECTOR.spec_bytes().len());
    assert(LIVE_EFFECT_SCALE_PARAMETERS_SELECTOR.spec_bytes().len() != LIVE_EFFECT_ADJUST_COLORS_SELECTOR.spec_bytes().len());
    assert(LIVE_EFFECT_SCALE_PARAMETERS_SELECTOR.spec_bytes().len() != LIVE_EFFECT_HANDLE_MERGE_SELECTOR.spec_bytes().len());
    assert(LIVE_EFFECT_CONVERT_COLOR_SPACE_SELECTOR.spec_bytes().len() != LIVE_EFFECT_ADJUST_COLORS_SELECTOR.spec_bytes().len());
    assert(LIVE_EFFECT_CONVERT_COLOR_SPACE_SELECTOR.spec_bytes().len() != LIVE_EFFECT_HANDLE_MERGE_SELECTOR.spec_bytes().len());
    assert(LIVE_EFFECT_ADJUST_COLORS_SELECTOR.spec_bytes().len() != LIVE_EFFECT_HANDLE_MERGE_SELECTOR.spec_bytes().len());
}

proof fn lemma_selectors_distinct_timer()
    ensures
        forall|e: Event, d: Event|
            family(e) == Family::Timer && family(d) == Family::Timer && #[trigger] selector_of(e).spec_bytes()
                == #[trigger] selector_of(d).spec_bytes() ==> e == d,
{
    lemma_bytes_go_timer_selector();
}

proof fn lemma_selectors_distinct_clipboard()
    ensures
        forall|e: Event, d: Event|
            family(e) == Family::Clipboard && family(d) == Family::Clipboard && #[trigger] selector_of(e).spec_bytes()
                == #[trigger] selector_of(d).spec_bytes() ==> e == d,
{
    lemma_bytes_go_clipboard_selector();
    lemma_bytes_can_copy_clipboard_selector();
    lemma_bytes_clone_clipboard_selector();
    lemma_bytes_dispose_clipboard_selector();
    assert(GO_CLIPBOARD_SELECTOR.spec_bytes().len() != CAN_COPY_CLIPBOARD_SELECTOR.spec_bytes().len());
    assert(GO_CLIPBOARD_SELECTOR.spec_bytes().len() != CLONE_CLIPBOARD_SELECTOR.spec_bytes().len());
    assert(GO_CLIPBOARD_SELECTOR.spec_bytes().len() != DISPOSE_CLIPBOARD_SELECTOR.spec_bytes().len());
    assert(CAN_COPY_CLIPBOARD_SELECTOR.spec_bytes().len() != CLONE_CLIPBOARD_SELECTOR.spec_bytes().len());
    assert(CAN_COPY_CLIPBOARD_SELECTOR.spec_bytes().len() != DISPOSE_CLIPBOARD_SELECTOR.spec_bytes().len());
    assert(CLONE_CLIPBOARD_SELECTOR.spec_bytes().len() != DISPOSE_CLIPBOARD_SELECTOR.spec_bytes().len());
}

proof fn lemma_selectors_distinct_workspace()
    ensures
        forall|e: Event, d: Event|
            family(e) == Family::Workspace && family(d) == Family::Workspace && #[trigger] selector_of(e).spec_bytes()
                == #[trigger] selector_of(d).spec_bytes() ==> e == d,
{
    lemma_bytes_workspace_write_selector();
    lemma_bytes_workspace_restore_selector();
    lemma_bytes_workspace_default_selector();
    assert(WORKSPACE_WRITE_SELECTOR.spec_bytes().len() != WORKSPACE_RESTORE_SELECTOR.spec_bytes().len());
    assert(WORKSPACE_WRITE_SELECTOR.spec_bytes().len() != WORKSPACE_DEFAULT_SELECTOR.spec_bytes().len());
    assert(WORKSPACE_RESTORE_SELECTOR.spec_bytes()[4] != WORKSPACE_DEFAULT_SELECTOR.spec_bytes()[4]);
}

/// Different events have different (caller, selector) pairs, none of them
/// with the notifier caller.
pub proof fn lemma_event_keys_distinct()
    ensures
        forall|e: Event, d: Event| #[trigger] event_key(e) == #[trigger] event_key(d) ==> e == d,
        forall|e: Event| (#[trigger] event_key(e)).0 != AI_NOTIFIER_CALLER.spec_bytes(),
{
    lemma_callers_distinct();
    lemma_selectors_distinct_access();
    lemma_selectors_distinct_interface();
    lemma_selectors_distinct_cache();
    lemma_selectors_distinct_properties();
    lemma_selectors_distinct_action();
    lemma_selectors_distinct_menu();
    lemma_selectors_distinct_filter();
    lemma_selectors_distinct_plugin_group();
    lemma_selectors_distinct_file_format();
    lemma_selectors_distinct_tool();
    lemma_selectors_distinct_live_effect();
    lemma_selectors_distinct_timer();
    lemma_selectors_distinct_clipboard();
    lemma_selectors_distinct_workspace();
    assert forall|e: Event, d: Event| #[trigger] event_key(e) == #[trigger] event_key(d) implies e == d by {
        assert(family_caller(family(e)).spec_bytes() == family_caller(family(d)).spec_bytes());
        assert(family(e) == family(d));
        assert(selector_of(e).spec_bytes() == selector_of(d).spec_bytes());
    }
}

} // verus!
