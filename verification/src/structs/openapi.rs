//! The subset of OpenAPI 3.0.3 documents that module descriptions use.
//!
//! Field names that are Rust keywords in the document (`type`, `$ref`, `in`,
//! `enum`) carry a trailing underscore here.
use crate::strmap::StrMap;
use vstd::prelude::*;

verus! {

/// An OpenAPI document describing the functions of a module.
#[derive(Debug)]
pub struct OpenApiDocument {
    pub openapi: OpenApiVersion,
    pub info: OpenApiInfo,
    pub servers: Option<Vec<OpenApiServerObject>>,
    pub paths: StrMap<OpenApiPathItemObject>,
    pub components: Option<OpenApiComponents>,
    pub security: Option<Vec<OpenApiSecurityRequirementObject>>,
    pub tags: Option<Vec<OpenApiTagObject>>,
    pub external_docs: Option<OpenApiExternalDocs>,
}

/// The OpenAPI specification versions understood (`"3.0.3"`).
#[derive(Debug, Clone, Copy, PartialEq, Eq, Structural)]
pub enum OpenApiVersion {
    V3_0_3,
}

#[derive(Debug)]
pub struct OpenApiInfo {
    pub title: String,
    pub description: Option<String>,
    pub terms_of_service: Option<String>,
    pub contact: Option<OpenApiContactInfo>,
    pub license: Option<OpenApiLicenseInfo>,
    pub version: String,
}

#[derive(Debug)]
pub struct OpenApiContactInfo {
    pub name: Option<String>,
    pub url: Option<String>,
    pub email: Option<String>,
}

#[derive(Debug)]
pub struct OpenApiLicenseInfo {
    pub name: String,
    pub url: Option<String>,
}

/// <https://spec.openapis.org/oas/v3.0.3.html#path-item-object>
#[derive(Debug)]
pub struct OpenApiPathItemObject {
    pub ref_: Option<String>,
    pub summary: Option<String>,
    pub description: Option<String>,
    pub get: Option<OpenApiOperation>,
    pub put: Option<OpenApiOperation>,
    pub post: Option<OpenApiOperation>,
    pub delete: Option<OpenApiOperation>,
    pub options: Option<OpenApiOperation>,
    pub head: Option<OpenApiOperation>,
    pub patch: Option<OpenApiOperation>,
    pub trace: Option<OpenApiOperation>,
    pub servers: Option<Vec<OpenApiServerObject>>,
    pub parameters: Option<Vec<OpenApiParameterEnum>>,
}

/// <https://spec.openapis.org/oas/v3.0.3.html#operation-object>
#[derive(Debug)]
pub struct OpenApiOperation {
    pub tags: Vec<String>,
    pub summary: Option<String>,
    pub description: Option<String>,
    pub external_docs: Option<OpenApiExternalDocs>,
    pub operation_id: Option<String>,
    pub parameters: Option<Vec<OpenApiParameterEnum>>,
    pub request_body: Option<RequestBodyEnum>,
    /// Response objects by HTTP status code such as `"200"`.
    pub responses: StrMap<ResponseEnum>,
    pub callbacks: Option<StrMap<OpenApiCallbackEnum>>,
    pub deprecated: Option<bool>,
    pub security: Option<Vec<OpenApiSecurityRequirementObject>>,
    pub servers: Option<Vec<OpenApiServerObject>>,
}

/// A callback: either a path item or a reference.
#[derive(Debug)]
pub enum OpenApiCallbackEnum {
    OpenApiPathItemObject(OpenApiPathItemObject),
    OpenApiReferenceObject(OpenApiReferenceObject),
}

#[derive(Debug)]
pub struct OpenApiCallbackObject {}

/// A response: either a response object or a reference.
#[derive(Debug)]
pub enum ResponseEnum {
    OpenApiResponseObject(OpenApiResponseObject),
    OpenApiReferenceObject(OpenApiReferenceObject),
}

/// <https://spec.openapis.org/oas/v3.0.3.html#response-object>
#[derive(Debug)]
pub struct OpenApiResponseObject {
    pub description: String,
    pub headers: Option<StrMap<OpenApiHeaderEnum>>,
    pub content: Option<StrMap<OpenApiMediaTypeObject>>,
    pub links: Option<StrMap<OpenApiLinkEnum>>,
}

/// <https://spec.openapis.org/oas/v3.0.3.html#link-object>
#[derive(Debug)]
pub struct OpenApiLinkObject {
    pub operation_ref: Option<String>,
    pub operation_id: Option<String>,
    pub parameters: Option<StrMap<serde_json::Value>>,
    pub request_body: Option<serde_json::Value>,
    pub description: Option<String>,
    pub server: Option<OpenApiServerObject>,
}

/// <https://spec.openapis.org/oas/v3.0.3.html#server-object>
#[derive(Debug)]
pub struct OpenApiServerObject {
    pub url: String,
    pub description: Option<String>,
    pub variables: Option<StrMap<OpenApiServerVariableObject>>,
}

/// <https://spec.openapis.org/oas/v3.0.3.html#server-variable-object>
#[derive(Debug)]
pub struct OpenApiServerVariableObject {
    pub enum_: Option<Vec<String>>,
    pub default: String,
    pub description: Option<String>,
}

/// A link: either a link object or a reference.
#[derive(Debug)]
pub enum OpenApiLinkEnum {
    OpenApiLinkObject(OpenApiLinkObject),
    OpenApiReferenceObject(OpenApiReferenceObject),
}

/// A request body: either a request body object or a reference.
#[derive(Debug)]
pub enum RequestBodyEnum {
    OpenApiRequestBodyObject(OpenApiRequestBodyObject),
    OpenApiReferenceObject(OpenApiReferenceObject),
}

/// <https://spec.openapis.org/oas/v3.0.3.html#request-body-object>
#[derive(Debug)]
pub struct OpenApiRequestBodyObject {
    pub description: Option<String>,
    pub content: StrMap<OpenApiMediaTypeObject>,
    pub required: Option<bool>,
}

/// A parameter: either a parameter object or a reference.
#[derive(Debug)]
pub enum OpenApiParameterEnum {
    OpenApiParameterObject(OpenApiParameterObject),
    OpenApiReferenceObject(OpenApiReferenceObject),
}

/// Where a parameter is carried; `RequestBody` is the orchestrator's addition.
#[derive(Debug, Clone, Copy, PartialEq, Eq, Structural)]
pub enum OpenApiParameterIn {
    Query,
    Header,
    Path,
    Cookie,
    RequestBody,
}

/// A schema: either a schema object or a reference.
#[derive(Debug)]
pub enum OpenApiSchemaEnum {
    OpenApiSchemaObject(OpenApiSchemaObject),
    OpenApiReferenceObject(OpenApiReferenceObject),
}

/// <https://spec.openapis.org/oas/v3.0.3.html#parameter-object>
#[derive(Debug)]
pub struct OpenApiParameterObject {
    pub name: String,
    pub in_: OpenApiParameterIn,
    pub description: Option<String>,
    pub required: bool,
    pub deprecated: Option<bool>,
    pub allow_empty_value: Option<bool>,
    pub style: Option<String>,
    pub explode: Option<bool>,
    pub allow_reserved: Option<bool>,
    pub schema: Option<OpenApiSchemaEnum>,
    pub content: Option<StrMap<OpenApiMediaTypeObject>>,
}

/// <https://spec.openapis.org/oas/v3.0.3.html#media-type-object>
#[derive(Debug)]
pub struct OpenApiMediaTypeObject {
    pub schema: Option<OpenApiSchemaEnum>,
    pub encoding: Option<StrMap<OpenApiEncodingObject>>,
}

/// A header: a parameter object used as a header, or a reference.
#[derive(Debug)]
pub enum OpenApiHeaderEnum {
    OpenApiHeaderObject(OpenApiParameterObject),
    OpenApiReferenceObject(OpenApiReferenceObject),
}

/// <https://spec.openapis.org/oas/v3.0.3.html#encoding-object>
#[derive(Debug)]
pub struct OpenApiEncodingObject {
    pub content_type: Option<String>,
    pub headers: Option<StrMap<OpenApiHeaderEnum>>,
    pub style: Option<String>,
    pub explode: Option<bool>,
    pub allow_reserved: Option<bool>,
}

/// <https://spec.openapis.org/oas/v3.0.3.html#reference-object>
#[derive(Debug)]
pub struct OpenApiReferenceObject {
    pub ref_: String,
}

/// The value formats that the orchestrator and OpenAPI know.
#[derive(Debug, Clone, Copy, PartialEq, Eq, Structural)]
pub enum OpenApiFormat {
    Int32,
    Int64,
    Float,
    Double,
    Byte,
    Binary,
    Boolean,
    Date,
    DateTime,
    Password,
    Object,
    String,
    Integer,
}

/// <https://spec.openapis.org/oas/v3.0.3.html#schema-object> (the parts in use).
#[derive(Debug)]
pub struct OpenApiSchemaObject {
    pub type_: Option<String>,
    pub properties: Option<StrMap<OpenApiSchemaEnum>>,
    pub format: Option<OpenApiFormat>,
}

#[derive(Debug)]
pub struct OpenApiComponents {}

#[derive(Debug)]
pub struct OpenApiSecurityRequirementObject {}

/// <https://spec.openapis.org/oas/v3.0.3.html#external-documentation-object>
#[derive(Debug)]
pub struct OpenApiExternalDocs {
    pub description: Option<String>,
    pub url: Option<String>,
}

#[derive(Debug)]
pub struct OpenApiTagObject {
    pub name: String,
    pub description: Option<String>,
    pub external_docs: Option<OpenApiExternalDocs>,
}

} // verus!
