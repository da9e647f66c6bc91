//! Client options: the graphics backend to ask for and verbosity.
use crate::text::{same_text, text_or, text_until_nul, trim_text, trimmed, until_nul};
use vstd::prelude::*;

verus! {

/// The graphics backend that the native runtime should use.
#[derive(Clone, Copy, Debug, PartialEq, Eq, Structural)]
pub enum ALXRGraphicsApi {
    Auto,
    Vulkan2,
    Vulkan,
    D3D12,
    D3D11,
    OpenGLES,
    OpenGL,
}

/// The backend that an already trimmed name selects; unknown names select
/// `Auto`.
pub open spec fn api_named(t: Seq<char>) -> ALXRGraphicsApi {
    if t == "Vulkan2"@ {
        ALXRGraphicsApi::Vulkan2
    } else if t == "Vulkan"@ {
        ALXRGraphicsApi::Vulkan
    } else if t == "D3D12"@ {
        ALXRGraphicsApi::D3D12
    } else if t == "D3D11"@ {
        ALXRGraphicsApi::D3D11
    } else if t == "OpenGLES"@ {
        ALXRGraphicsApi::OpenGLES
    } else if t == "OpenGL"@ {
        ALXRGraphicsApi::OpenGL
    } else {
        ALXRGraphicsApi::Auto
    }
}

impl ALXRGraphicsApi {
    /// The backend named by `t`, which has no surrounding white space.
    pub fn from_trimmed(t: &str) -> (r: ALXRGraphicsApi)
        ensures
            r == api_named(t@),
    {
        if same_text(t, "Vulkan2") {
            ALXRGraphicsApi::Vulkan2
        } else if same_text(t, "Vulkan") {
            ALXRGraphicsApi::Vulkan
        } else if same_text(t, "D3D12") {
            ALXRGraphicsApi::D3D12
        } else if same_text(t, "D3D11") {
            ALXRGraphicsApi::D3D11
        } else if same_text(t, "OpenGLES") {
            ALXRGraphicsApi::OpenGLES
        } else if same_text(t, "OpenGL") {
            ALXRGraphicsApi::OpenGL
        } else {
            ALXRGraphicsApi::Auto
        }
    }

    /// The backend named by `name`, ignoring surrounding white space.
    pub fn from_name(name: &str) -> (r: ALXRGraphicsApi)
        ensures
            r == api_named(trimmed(name@)),
    {
        ALXRGraphicsApi::from_trimmed(trim_text(name))
    }
}

impl<'a> From<&'a str> for ALXRGraphicsApi {
    /// The backend named by `input`, ignoring surrounding white space.
    fn from(input: &'a str) -> ALXRGraphicsApi {
        ALXRGraphicsApi::from_name(input)
    }
}

impl<'a> vstd::std_specs::convert::FromSpecImpl<&'a str> for ALXRGraphicsApi {
    open spec fn obeys_from_spec() -> bool {
        true
    }

    open spec fn from_spec(v: &'a str) -> ALXRGraphicsApi {
        api_named(trimmed(v@))
    }
}

/// Options of the client.
#[derive(Clone, Copy, Debug, PartialEq, Eq, Structural)]
pub struct Options {
    /// Reach the host over the loopback address.
    pub localhost: bool,
    pub graphics_api: Option<ALXRGraphicsApi>,
    pub verbose: bool,
}

/// The backend that a system property value selects: a value that is not
/// UTF-8 reads as `auto`.
pub open spec fn api_property(value: Seq<u8>) -> ALXRGraphicsApi {
    api_named(trimmed(text_or(until_nul(value), "auto"@)))
}

/// The verbosity that a system property value selects: only `true` turns
/// it on.
pub open spec fn flag_property(value: Seq<u8>) -> bool {
    text_or(until_nul(value), "false"@) == "true"@
}

impl Options {
    /// Options from the values of the system properties that name the
    /// graphics backend and the verbosity (`None` for a property not set).
    /// A backend is always chosen; it is `Auto` unless the property names
    /// another.
    pub fn from_system_properties(
        graphics_plugin: Option<Vec<u8>>,
        verbose: Option<Vec<u8>>,
    ) -> (r: Options)
        ensures
            !r.localhost,
            r.graphics_api == Some(match graphics_plugin {
                Some(v) => api_property(v@),
                None => ALXRGraphicsApi::Auto,
            }),
            r.verbose == match verbose {
                Some(v) => flag_property(v@),
                None => false,
            },
    {
        let graphics_api = match graphics_plugin {
            Some(v) => {
                let name = text_until_nul(v.as_slice(), "auto");
                ALXRGraphicsApi::from_name(name.as_str())
            },
            None => ALXRGraphicsApi::Auto,
        };
        let verbose = match verbose {
            Some(v) => {
                let text = text_until_nul(v.as_slice(), "false");
                same_text(text.as_str(), "true")
            },
            None => false,
        };
        Options { localhost: false, graphics_api: Some(graphics_api), verbose }
    }
}

} // verus!
