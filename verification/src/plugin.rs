//! The plugin's self-description, exchanged with the host process at
//! startup. The handshake itself is an external collaborator; the data it
//! carries — identity, version, UI path and the upstream endpoints the
//! plugin asks permission for — is fixed here, as plain values.

use vstd::prelude::*;

verus! {

/// The kind of plugin this service registers as.
#[derive(Clone, Copy, Debug, PartialEq, Eq, Structural)]
pub enum PluginType {
    Utilities,
}

/// One upstream endpoint the plugin asks the host for permission to call,
/// with the reason shown to the operator.
pub struct PermittedEndpoint {
    pub method: String,
    pub endpoint: String,
    pub reason: String,
}

/// What the plugin tells the host about itself at startup.
pub struct PluginIntrospect {
    pub plugin_type: PluginType,
    pub id: String,
    pub name: String,
    pub author: String,
    pub contact: String,
    pub description: String,
    pub url: String,
    pub version: (u32, u32, u32),
    pub ui_path: String,
    pub permitted_endpoints: Vec<PermittedEndpoint>,
}

/// The plugin's self-description: a utilities plugin serving its UI at the
/// root, asking permission for the add-one-IP call and the access-rule
/// listing it performs against the upstream API.
pub fn introspect() -> (r: PluginIntrospect)
    ensures
        r.plugin_type is Utilities,
        r.id@ == "com.anthonyrubick.zoraxy-blocklist-manager"@,
        r.name@ == "Blocklist Import Plugin"@,
        r.author@ == "Anthony Rubick"@,
        r.contact@ == ""@,
        r.description@ == "A plugin for importing blocklists into Zoraxy's Access Rules."@,
        r.url@ == "https://github.com/AnthonyMichaelTDM/zoraxy-blocklist-import-plugin"@,
        r.version == (1u32, 0u32, 0u32),
        r.ui_path@ == "/"@,
        r.permitted_endpoints@.len() == 2,
        r.permitted_endpoints@[0].method@ == "POST"@,
        r.permitted_endpoints@[0].endpoint@ == "/plugin/api/blacklist/ip/add"@,
        r.permitted_endpoints@[0].reason@ == "Used to add IP addresses to the blocklist"@,
        r.permitted_endpoints@[1].method@ == "GET"@,
        r.permitted_endpoints@[1].endpoint@ == "/plugin/api/access/list"@,
        r.permitted_endpoints@[1].reason@ == "Used to list available access rulesets"@,
{
    let mut permitted_endpoints: Vec<PermittedEndpoint> = Vec::new();
    permitted_endpoints.push(
        PermittedEndpoint {
            method: String::from_str("POST"),
            endpoint: String::from_str("/plugin/api/blacklist/ip/add"),
            reason: String::from_str("Used to add IP addresses to the blocklist"),
        },
    );
    permitted_endpoints.push(
        PermittedEndpoint {
            method: String::from_str("GET"),
            endpoint: String::from_str("/plugin/api/access/list"),
            reason: String::from_str("Used to list available access rulesets"),
        },
    );
    PluginIntrospect {
        plugin_type: PluginType::Utilities,
        id: String::from_str("com.anthonyrubick.zoraxy-blocklist-manager"),
        name: String::from_str("Blocklist Import Plugin"),
        author: String::from_str("Anthony Rubick"),
        contact: String::from_str(""),
        description: String::from_str("A plugin for importing blocklists into Zoraxy's Access Rules."),
        url: String::from_str("https://github.com/AnthonyMichaelTDM/zoraxy-blocklist-import-plugin"),
        version: (1, 0, 0),
        ui_path: String::from_str("/"),
        permitted_endpoints,
    }
}

} // verus!
