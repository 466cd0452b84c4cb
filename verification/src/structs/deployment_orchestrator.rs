//! The deployment documents that the orchestrator sends, and the mounts that
//! a multipart request body declares.
use crate::strmap::StrMap;
use crate::structs::module_orchestrator::MountStage;
use crate::structs::openapi::{
    OpenApiEncodingObject,
    OpenApiParameterObject,
    OpenApiSchemaObject,
};
use crate::text::{debug_format, debug_string, str_eq};
use vstd::prelude::*;

verus! {

/// Top level of a deployment document.
#[derive(Debug)]
pub struct DeploymentDoc {
    pub id: Option<String>,
    /// The id the orchestrator gives this device in the deployment.
    pub my_id: String,
    pub name: String,
    pub validation_error: Option<String>,
    pub full_manifest: FullManifest,
    pub active: Option<bool>,
}

/// The steps of a deployment, in the order in which they run.
#[derive(Debug)]
pub struct FullManifest {
    pub sequence: Vec<Step>,
}

/// One step of a deployment.
#[derive(Debug)]
pub struct Step {
    /// The device that executes the step.
    pub device_id: String,
    /// The deployment the step belongs to.
    pub deployment_id: String,
    /// The module used in the step.
    pub module: DeviceModule,
    /// The function executed in the step.
    pub function_name: String,
    /// The endpoint to call for the step.
    pub endpoint: Endpoint,
    /// Where the step's input comes from and its output goes.
    pub instructions: Instructions,
    /// The files mounted at each stage of the step.
    pub mounts: StageMounts,
}

/// The endpoint a step is called from, and the one it calls next, if any.
#[derive(Debug)]
pub struct Instructions {
    pub from: Endpoint,
    pub to: Option<Endpoint>,
}

/// The body of an endpoint's request.
#[derive(Debug)]
pub struct RequestBody {
    pub media_type: String,
    pub schema: Option<OpenApiSchemaObject>,
    pub encoding: Option<StrMap<OpenApiEncodingObject>>,
}

/// What an endpoint's request carries.
#[derive(Debug)]
pub struct OperationRequest {
    pub parameters: Vec<OpenApiParameterObject>,
    pub request_body: Option<RequestBody>,
}

/// What an endpoint's response carries.
#[derive(Debug)]
pub struct OperationResponse {
    pub media_type: String,
    pub schema: Option<OpenApiSchemaObject>,
}

/// An HTTP endpoint of a module function.
#[derive(Debug)]
pub struct Endpoint {
    pub url: String,
    pub path: String,
    pub method: String,
    pub request: OperationRequest,
    pub response: OperationResponse,
}

/// Where a module's binary, description and other files are downloaded from.
#[derive(Debug)]
pub struct DeviceModuleUrls {
    pub binary: String,
    pub description: String,
    /// File name to download URL.
    pub other: StrMap<String>,
}

/// A module as a deployment step names it.
#[derive(Debug)]
pub struct DeviceModule {
    pub id: String,
    pub name: String,
    pub urls: DeviceModuleUrls,
}

/// A multipart request body.
#[derive(Debug)]
pub struct MultipartMediaType {
    pub media_type: String,
    pub schema: SchemaObject,
    pub encoding: StrMap<OpenApiEncodingObject>,
}

/// The schema of a multipart body.
#[derive(Debug)]
pub struct SchemaObject {
    pub type_: String,
    pub properties: StrMap<SchemaProperty>,
}

/// One property of a multipart schema.
#[derive(Debug)]
pub struct SchemaProperty {
    pub type_: String,
    pub format: Option<String>,
}

/// A file mounted into a module at a path.
#[derive(Debug, Clone)]
pub struct MountPathFile {
    pub path: String,
    pub media_type: String,
    pub stage: Option<MountStage>,
}

impl View for MountPathFile {
    type V = (Seq<char>, Seq<char>, Option<MountStage>);

    open spec fn view(&self) -> Self::V {
        (self.path@, self.media_type@, self.stage)
    }
}

/// Whether a multipart property is a binary string, i.e. a file.
pub open spec fn is_binary_property(p: SchemaProperty) -> bool {
    p.type_@ == "string"@ && match p.format {
        Some(f) => f@ == "binary"@,
        None => false,
    }
}

/// The mounts of a multipart body, property by property: each binary
/// property whose encoding names a content type becomes a mount of that type
/// at the property's path, with no stage yet.
pub open spec fn multipart_mounts(
    props: Seq<(String, SchemaProperty)>,
    encoding: Map<Seq<char>, OpenApiEncodingObject>,
) -> Seq<(Seq<char>, Seq<char>, Option<MountStage>)>
    decreases props.len(),
{
    if props.len() == 0 {
        Seq::empty()
    } else {
        let rest = multipart_mounts(props.drop_last(), encoding);
        let (path, prop) = props.last();
        if is_binary_property(prop) && encoding.contains_key(path@) && encoding[path@].content_type
            is Some {
            rest.push((path@, encoding[path@].content_type->0@, None))
        } else {
            rest
        }
    }
}

/// The views of a list of mounts.
pub open spec fn mount_views(v: Seq<MountPathFile>) -> Seq<(Seq<char>, Seq<char>, Option<MountStage>)> {
    v.map_values(|m: MountPathFile| m@)
}

/// The error for a body that is not `multipart/form-data`.
pub open spec fn not_multipart_error(media_type: Seq<char>) -> Seq<char> {
    "Expected multipart/form-data, got '"@ + debug_string(media_type) + "'"@
}

/// The error for a schema that is not an object.
pub open spec fn not_object_error(schema_type: Seq<char>) -> Seq<char> {
    "Only object schemas supported, got '"@ + debug_string(schema_type) + "'"@
}

impl MountPathFile {
    /// Checks a multipart body and collects the files it declares as mounts.
    ///
    /// The body must be `multipart/form-data` with an object schema that has
    /// properties; each binary string property whose encoding names a content
    /// type becomes a mount.
    pub fn list_from_multipart(m_obj: &MultipartMediaType) -> (r: Result<Vec<MountPathFile>, String>)
        ensures
            m_obj.media_type@ != "multipart/form-data"@ ==> (r matches Err(e) && e@
                == not_multipart_error(m_obj.media_type@)),
            m_obj.media_type@ == "multipart/form-data"@ && m_obj.schema.type_@ != "object"@ ==> (
            r matches Err(e) && e@ == not_object_error(m_obj.schema.type_@)),
            m_obj.media_type@ == "multipart/form-data"@ && m_obj.schema.type_@ == "object"@
                && m_obj.schema.properties@.len() == 0 ==> (r matches Err(e) && e@
                == "Expected properties for multipart schema, properties was empty instead."@),
            m_obj.media_type@ == "multipart/form-data"@ && m_obj.schema.type_@ == "object"@
                && m_obj.schema.properties@.len() > 0 ==> (r matches Ok(v) && mount_views(v@)
                == multipart_mounts(m_obj.schema.properties.seq(), m_obj.encoding@)),
    {
        if !str_eq(m_obj.media_type.as_str(), "multipart/form-data") {
            let mut e = "Expected multipart/form-data, got '".to_string();
            let d = debug_format(m_obj.media_type.as_str());
            e.append(d.as_str());
            e.append("'");
            return Err(e);
        }
        if !str_eq(m_obj.schema.type_.as_str(), "object") {
            let mut e = "Only object schemas supported, got '".to_string();
            let d = debug_format(m_obj.schema.type_.as_str());
            e.append(d.as_str());
            e.append("'");
            return Err(e);
        }
        if m_obj.schema.properties.len() == 0 {
            return Err("Expected properties for multipart schema, properties was empty instead.".to_string());
        }
        let props = m_obj.schema.properties.entries();
        let mut mounts: Vec<MountPathFile> = Vec::new();
        let mut i: usize = 0;
        while i < props.len()
            invariant
                i <= props@.len(),
                props@ == m_obj.schema.properties.seq(),
                mount_views(mounts@) == multipart_mounts(props@.take(i as int), m_obj.encoding@),
            decreases props@.len() - i,
        {
            proof {
                assert(props@.take(i + 1).drop_last() =~= props@.take(i as int));
            }
            let path = &props[i].0;
            let property = &props[i].1;
            let is_binary = str_eq(property.type_.as_str(), "string") && match &property.format {
                Some(f) => str_eq(f.as_str(), "binary"),
                None => false,
            };
            if is_binary {
                match m_obj.encoding.get(path.as_str()) {
                    Some(encoding) => {
                        match &encoding.content_type {
                            Some(content_type) => {
                                mounts.push(
                                    MountPathFile {
                                        path: path.clone(),
                                        media_type: content_type.clone(),
                                        stage: None,
                                    },
                                );
                            },
                            None => {},
                        }
                    },
                    None => {},
                }
            }
            proof {
                assert(mount_views(mounts@) =~= multipart_mounts(props@.take(i + 1), m_obj.encoding@));
            }
            i = i + 1;
        }
        proof {
            assert(props@.take(props@.len() as int) =~= props@);
        }
        Ok(mounts)
    }
}

/// The files mounted at each stage of a step.
#[derive(Debug, Clone)]
pub struct StageMounts {
    pub execution: Vec<MountPathFile>,
    pub deployment: Vec<MountPathFile>,
    pub output: Vec<MountPathFile>,
}

} // verus!
