//! The descriptor of this plugin.

use crate::abi::{
    ParallaxPluginApi, ParallaxPluginInfoC, PluginApiModel, PluginCallback, PluginInfoModel,
    ABI_VERSION,
};
use crate::ctext::{c_text, lemma_c_text_ascii, CText};
use vstd::prelude::*;

verus! {

/// Name of the plugin.
pub const PLUGIN_NAME: &'static str = "Rust Example";

/// Version of the plugin.
pub const PLUGIN_VERSION: &'static str = "0.1.0";

/// Author of the plugin.
pub const PLUGIN_AUTHOR: &'static str = "Parallax Rust SDK";

/// What the plugin is for.
pub const PLUGIN_DESCRIPTION: &'static str = "Demonstrates how to write a Rust plugin for Parallax";

/// The metadata of this plugin. It depends on no other plugin.
pub open spec fn plugin_info() -> PluginInfoModel {
    PluginInfoModel {
        name: c_text(PLUGIN_NAME@),
        version: c_text(PLUGIN_VERSION@),
        author: c_text(PLUGIN_AUTHOR@),
        description: c_text(PLUGIN_DESCRIPTION@),
        dependencies: Seq::empty(),
        dependency_count: 0,
    }
}

/// The descriptor of this plugin: it loads, unloads and updates, and draws
/// nothing of its own.
pub open spec fn plugin_api() -> PluginApiModel {
    PluginApiModel {
        abi_version: ABI_VERSION,
        info: plugin_info(),
        on_load: Some(PluginCallback::Load),
        on_unload: Some(PluginCallback::Unload),
        on_update: Some(PluginCallback::Update),
        on_gui: None,
    }
}

/// A string of the descriptor that is there and is not empty.
pub open spec fn present(text: Option<Seq<u8>>) -> bool {
    text matches Some(bytes) && bytes.len() > 0
}

/// The descriptor announces version 1 of the interface, and its name,
/// version, author and description are there and not empty.
pub proof fn lemma_descriptor_complete()
    ensures
        plugin_api().abi_version == 1,
        present(plugin_api().info.name),
        present(plugin_api().info.version),
        present(plugin_api().info.author),
        present(plugin_api().info.description),
{
    reveal_strlit("Rust Example");
    reveal_strlit("0.1.0");
    reveal_strlit("Parallax Rust SDK");
    reveal_strlit("Demonstrates how to write a Rust plugin for Parallax");
    lemma_c_text_ascii(PLUGIN_NAME@);
    lemma_c_text_ascii(PLUGIN_VERSION@);
    lemma_c_text_ascii(PLUGIN_AUTHOR@);
    lemma_c_text_ascii(PLUGIN_DESCRIPTION@);
}

/// Returns the descriptor of this plugin. Always succeeds.
#[allow(non_snake_case)]
pub fn ParallaxGetPluginApi() -> (api: ParallaxPluginApi)
    ensures
        api@ == plugin_api(),
        api.abi_version == 1,
        present(api@.info.name),
        present(api@.info.version),
        present(api@.info.author),
        present(api@.info.description),
{
    proof {
        lemma_descriptor_complete();
    }
    let info = ParallaxPluginInfoC {
        name: CText::new(PLUGIN_NAME),
        version: CText::new(PLUGIN_VERSION),
        author: CText::new(PLUGIN_AUTHOR),
        description: CText::new(PLUGIN_DESCRIPTION),
        dependencies: Vec::new(),
        dependency_count: 0,
    };
    assert(info@.dependencies =~= Seq::<Seq<u8>>::empty());
    ParallaxPluginApi {
        abi_version: ABI_VERSION,
        info,
        on_load: Some(PluginCallback::Load),
        on_unload: Some(PluginCallback::Unload),
        on_update: Some(PluginCallback::Update),
        on_gui: None,
    }
}

} // verus!
