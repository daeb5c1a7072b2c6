//! The lifecycle of a plugin as listeners come to know it: a plugin is
//! installed, then loaded, and each step that succeeds is told on the event
//! bus. A step that fails is reported to its caller and told to nobody.

use crate::event_handler::{Event, EventView};
use crate::plugin_hub::{Plugin, PluginHubError, PluginView};
use crate::plugin_manager::LoadError;
use vstd::prelude::*;

verus! {

/// An optional event as plain values.
pub open spec fn event_view(event: Option<Event>) -> Option<EventView> {
    match event {
        Some(e) => Some(e@),
        None => None,
    }
}

/// The event that tells how the installation of `plugin` ended, if any does.
pub open spec fn install_event_spec(plugin: PluginView, installed: Result<(), PluginHubError>)
    -> Option<EventView> {
    match installed {
        Ok(_) => Some(EventView::PluginInstalled(plugin.name)),
        Err(_) => None,
    }
}

/// The event that tells how a load ended, if any does: `loaded` holds the
/// name under which the extension was registered.
pub open spec fn load_event_spec(loaded: Result<String, LoadError>) -> Option<EventView> {
    match loaded {
        Ok(name) => Some(EventView::PluginLoaded(name@)),
        Err(_) => None,
    }
}

/// The event to publish after the installation of `plugin`.
pub fn install_event(plugin: &Plugin, installed: &Result<(), PluginHubError>) -> (event: Option<
    Event,
>)
    ensures
        event_view(event) == install_event_spec(plugin@, *installed),
{
    match installed {
        Ok(_) => Some(Event::PluginInstalled(plugin.name.clone())),
        Err(_) => None,
    }
}

/// The event to publish after a load.
pub fn load_event(loaded: &Result<String, LoadError>) -> (event: Option<Event>)
    ensures
        event_view(event) == load_event_spec(*loaded),
{
    match loaded {
        Ok(name) => Some(Event::PluginLoaded(name.clone())),
        Err(_) => None,
    }
}

} // verus!
