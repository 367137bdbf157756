//! Configuration of the primary node service, exchanged by copy and
//! replaced wholesale on update.

use vstd::prelude::*;
use vstd::string::*;

verus! {

/// Configuration for the primary node service.  One live instance is owned
/// by the supervisor; `set_hanzo_node_options` replaces it wholesale.
#[derive(Debug, PartialEq, Eq)]
pub struct HanzoNodeOptions {
    pub node_api_port: u16,
    pub node_port: u16,
    pub ollama_api_port: u16,
    pub node_storage_path: String,
    pub default_embedding_model: Option<String>,
}

impl Clone for HanzoNodeOptions {
    fn clone(&self) -> (r: Self)
        ensures
            r == *self,
    {
        HanzoNodeOptions {
            node_api_port: self.node_api_port,
            node_port: self.node_port,
            ollama_api_port: self.ollama_api_port,
            node_storage_path: self.node_storage_path.clone(),
            default_embedding_model: match &self.default_embedding_model {
                Some(m) => Some(m.clone()),
                None => None,
            },
        }
    }
}

/// Characterizes the default configuration, field by field.
pub open spec fn default_options_spec(o: HanzoNodeOptions) -> bool {
    &&& o.node_api_port == 9550
    &&& o.node_port == 9552
    &&& o.ollama_api_port == 11434
    &&& o.node_storage_path@ == "node_storage"@
    &&& o.default_embedding_model matches Some(m) && m@ == "embeddinggemma:300m"@
}

/// The default configuration handed to a freshly constructed supervisor
/// and restored by `set_default_hanzo_node_options`.
pub fn default_options() -> (r: HanzoNodeOptions)
    ensures
        default_options_spec(r),
{
    HanzoNodeOptions {
        node_api_port: 9550,
        node_port: 9552,
        ollama_api_port: 11434,
        node_storage_path: String::from_str("node_storage"),
        default_embedding_model: Some(String::from_str("embeddinggemma:300m")),
    }
}

/// Identifier of the default inference model offered to callers.
pub fn default_model() -> (r: String)
    ensures
        r@ == "hanzo-backend:FREE_TEXT_INFERENCE"@,
{
    String::from_str("hanzo-backend:FREE_TEXT_INFERENCE")
}

/// Identifier of the default embedding model, as the default configuration
/// carries it.
pub fn default_embedding_model() -> (r: String)
    ensures
        r@ == "embeddinggemma:300m"@,
{
    String::from_str("embeddinggemma:300m")
}

} // verus!
