use crate::codec::{field, field_decodes, field_fits, FromJson, ToJson};
use crate::json::{Json, JsonValue};
use crate::request::AnkiRequest;
use vstd::prelude::*;

verus! {

/// Parameters for the "requestPermission" action: none.
#[derive(Default, Debug, Clone, PartialEq, Eq)]
pub struct RequestPermissionRequst;

/// What the server grants, and what a client has to bring.
#[derive(Debug, Clone, PartialEq, Eq)]
pub struct RequestPermissionResponse {
    /// Whether the client may use the interface.
    pub permission: Permission,
    /// Whether a request has to carry the API key.
    pub require_api_key: bool,
    /// The version of the interface.
    pub version: usize,
}

/// The answer to a request for permission.
#[derive(Default, Debug, Clone, PartialEq, Eq)]
pub enum Permission {
    #[default]
    Denied,
    Granted,
}

/// Written as `null`: the action takes no parameters.
impl ToJson for RequestPermissionRequst {
    open spec fn json_model(&self) -> JsonValue {
        JsonValue::Null
    }

    fn to_value(&self) -> (r: Json) {
        Json::Null
    }
}

/// Read from the name of the variant, as text.
impl FromJson for Permission {
    open spec fn fits(value: JsonValue) -> bool {
        value == JsonValue::Text("Denied"@) || value == JsonValue::Text("Granted"@)
    }

    open spec fn decodes(value: JsonValue, decoded: Permission) -> bool {
        match decoded {
            Permission::Denied => value == JsonValue::Text("Denied"@),
            Permission::Granted => value == JsonValue::Text("Granted"@),
        }
    }

    fn from_json(json: &Json) -> (r: Option<Permission>) {
        match json {
            Json::Text(name) => {
                if *name == "Denied".to_owned() {
                    Some(Permission::Denied)
                } else if *name == "Granted".to_owned() {
                    Some(Permission::Granted)
                } else {
                    None
                }
            },
            _ => None,
        }
    }
}

/// Read from an object. Every member has to be there and to fit; members
/// with other names are passed over.
impl FromJson for RequestPermissionResponse {
    open spec fn fits(value: JsonValue) -> bool {
        &&& field_fits::<Permission>(value, "permission"@)
        &&& field_fits::<bool>(value, "requireApiKey"@)
        &&& field_fits::<usize>(value, "version"@)
    }

    open spec fn decodes(value: JsonValue, decoded: RequestPermissionResponse) -> bool {
        &&& field_decodes::<Permission>(value, "permission"@, decoded.permission)
        &&& field_decodes::<bool>(value, "requireApiKey"@, decoded.require_api_key)
        &&& field_decodes::<usize>(value, "version"@, decoded.version)
    }

    fn from_json(json: &Json) -> (r: Option<RequestPermissionResponse>) {
        let permission = field::<Permission>(json, "permission")?;
        let require_api_key = field::<bool>(json, "requireApiKey")?;
        let version = field::<usize>(json, "version")?;
        Some(RequestPermissionResponse { permission, require_api_key, version })
    }
}

impl Default for RequestPermissionResponse {
    /// Permission denied, no key required, version 0.
    fn default() -> (r: RequestPermissionResponse)
        ensures
            r.permission == Permission::Denied,
            !r.require_api_key,
            r.version == 0,
    {
        RequestPermissionResponse {
            permission: Permission::Denied,
            require_api_key: false,
            version: 0,
        }
    }
}

impl AnkiRequest for RequestPermissionRequst {
    type Response = RequestPermissionResponse;

    const ACTION: &'static str = "requestPermission";

    const VERSION: u8 = 6;
}

/// The name and the version under which a [`RequestPermissionRequst`] is
/// sent.
pub proof fn lemma_request_permission_descriptor()
    ensures
        RequestPermissionRequst::ACTION@ == "requestPermission"@,
        RequestPermissionRequst::VERSION == 6,
{
}

} // verus!
