//! The API description of the service, generated from the route registry.
//!
//! The description is a `utoipa` document. It is built with `utoipa`'s own
//! builders and rendered by `utoipa`; both are outside this crate, and Verus
//! sees a document only through the names declared below. What is verified is
//! that the generated document lists the registered routes and nothing else.

use crate::routes::{lemma_paths_distinct, registered, route_table, routes, Handler, Route};
use vstd::prelude::*;

verus! {

/// The HTTP methods under which a document can list an operation.
pub enum Method {
    Get,
    Post,
    Put,
    Delete,
    Options,
    Head,
    Patch,
    Trace,
}

/// Where a request carries a parameter.
pub enum ParamLocation {
    Query,
    Path,
    Header,
    Cookie,
    QueryString,
}

/// The type that the schema of a parameter declares.
pub enum ParamType {
    Object,
    String,
    Integer,
    Number,
    Boolean,
    Array,
    Null,
}

/// One parameter of an operation, as a document lists it.
pub struct ParamView {
    pub name: Seq<char>,
    pub location: ParamLocation,
    pub required: bool,
    pub kind: ParamType,
}

/// One operation, as a document lists it.
pub struct OperationView {
    pub operation_id: Option<Seq<char>>,
    pub parameters: Seq<ParamView>,
}

/// The general information at the head of a document.
pub struct InfoView {
    pub title: Seq<char>,
    pub version: Seq<char>,
    pub description: Option<Seq<char>>,
}

/// A document's information with all three texts given.
pub open spec fn info_view(title: Seq<char>, version: Seq<char>, description: Seq<char>) -> InfoView {
    InfoView { title, version, description: Some(description) }
}

/// How a document lists a parameter of the query string that is required and is text.
pub open spec fn query_parameter(name: Seq<char>) -> ParamView {
    ParamView { name, location: ParamLocation::Query, required: true, kind: ParamType::String }
}

/// The operations of a document that lists none.
pub open spec fn no_operations() -> Map<(Seq<char>, Method), OperationView> {
    Map::empty()
}

/// A `utoipa` document. Verus does not look inside.
#[verifier::external_type_specification]
#[verifier::external_body]
pub struct ExOpenApi(utoipa::openapi::OpenApi);

/// A `utoipa` operation under construction. Verus does not look inside.
#[verifier::external_type_specification]
#[verifier::external_body]
pub struct ExOperationBuilder(utoipa::openapi::path::OperationBuilder);

/// The error of `serde_json`. Verus does not look inside.
#[verifier::external_type_specification]
#[verifier::external_body]
pub struct ExJsonError(serde_json::Error);

/// The operation id that an operation under construction holds.
pub uninterp spec fn operation_id_of(operation: utoipa::openapi::path::OperationBuilder) -> Option<Seq<char>>;

/// The parameters that an operation under construction holds, in order.
pub uninterp spec fn operation_parameters(operation: utoipa::openapi::path::OperationBuilder) -> Seq<ParamView>;

/// How a document lists an operation, once it is added.
pub open spec fn operation_view(operation: utoipa::openapi::path::OperationBuilder) -> OperationView {
    OperationView {
        operation_id: operation_id_of(operation),
        parameters: operation_parameters(operation),
    }
}

/// The title, version and description in the `info` of a document.
pub uninterp spec fn document_info(doc: utoipa::openapi::OpenApi) -> InfoView;

/// The operations that a document lists, by path and method. This is what
/// `Paths::get_path_operation` finds in the `paths` of the document.
pub uninterp spec fn document_operations(doc: utoipa::openapi::OpenApi) -> Map<(Seq<char>, Method), OperationView>;

/// What `OpenApi::to_pretty_json` makes of a document: the text, or nothing
/// where it fails. Both are determined by the whole document, of which the
/// other names tell only a part, so this name takes the document itself.
pub uninterp spec fn pretty_text(doc: utoipa::openapi::OpenApi) -> Option<Seq<char>>;

/// Calls `OpenApi::new` with an `Info` made by `InfoBuilder` from the three
/// texts, and with `Paths::new()`. The document holds that information and
/// lists no operation.
#[verifier::external_body]
fn new_document(title: &str, version: &str, description: &str) -> (doc: utoipa::openapi::OpenApi)
    ensures
        document_info(doc) == info_view(title@, version@, description@),
        document_operations(doc) == no_operations(),
{
    let info = utoipa::openapi::InfoBuilder::new()
        .title(title)
        .version(version)
        .description(Some(description));
    utoipa::openapi::OpenApi::new(info.build(), utoipa::openapi::Paths::new())
}

/// Calls `OperationBuilder::new` and sets the operation id. The operation has
/// no parameters yet.
#[verifier::external_body]
fn new_operation(operation_id: &str) -> (operation: utoipa::openapi::path::OperationBuilder)
    ensures
        operation_id_of(operation) == Some(operation_id@),
        operation_parameters(operation) == Seq::<ParamView>::empty(),
{
    utoipa::openapi::path::OperationBuilder::new().operation_id(Some(operation_id))
}

/// Calls `OperationBuilder::parameter` with a parameter made by
/// `ParameterBuilder`: one of the query string, required, with a schema of type
/// string. The parameter is appended; the operation id stays.
#[verifier::external_body]
fn with_query_parameter(
    operation: utoipa::openapi::path::OperationBuilder,
    name: &str,
) -> (extended: utoipa::openapi::path::OperationBuilder)
    ensures
        operation_id_of(extended) == operation_id_of(operation),
        operation_parameters(extended) == operation_parameters(operation).push(query_parameter(name@)),
{
    let schema = utoipa::openapi::ObjectBuilder::new().schema_type(utoipa::openapi::Type::String);
    let parameter = utoipa::openapi::path::ParameterBuilder::new()
        .name(name)
        .parameter_in(utoipa::openapi::path::ParameterIn::Query)
        .required(utoipa::openapi::Required::True)
        .schema(Some(schema));
    operation.parameter(parameter)
}

/// Calls `Paths::add_path_operation` on the `paths` of the document, for the
/// method `GET` alone. The operation is listed under the path and `GET`, in
/// place of one that was listed there; everything else in the document stays.
#[verifier::external_body]
fn add_get_operation(
    doc: &mut utoipa::openapi::OpenApi,
    path: &str,
    operation: utoipa::openapi::path::OperationBuilder,
)
    ensures
        document_info(*final(doc)) == document_info(*old(doc)),
        document_operations(*final(doc)) == document_operations(*old(doc)).insert(
            (path@, Method::Get),
            operation_view(operation),
        ),
{
    doc.paths.add_path_operation(path, vec![utoipa::openapi::HttpMethod::Get], operation);
}

/// Calls `OpenApi::to_pretty_json`. The contract only gives the outcome its
/// name: text or failure, it depends on the document and on nothing else.
#[verifier::external_body]
fn to_pretty_json(doc: &utoipa::openapi::OpenApi) -> (rendered: Result<String, serde_json::Error>)
    ensures
        text_of(rendered) == pretty_text(*doc),
{
    doc.to_pretty_json()
}

/// The title of the generated document.
pub const API_TITLE: &'static str = "hello_api";

/// The version of the generated document.
pub const API_VERSION: &'static str = "0.1.0";

/// The description of the generated document.
pub const API_DESCRIPTION: &'static str = "My Api description";

/// The file that the rendered document is written to when the service starts.
pub const SPEC_PATH: &'static str = "openapi-spec.json";

/// The information at the head of the generated document.
pub open spec fn api_info() -> InfoView {
    info_view(API_TITLE@, API_VERSION@, API_DESCRIPTION@)
}

/// How the document lists the operation of `handler`.
pub open spec fn described(handler: Handler) -> OperationView {
    OperationView {
        operation_id: Some(handler.spec_operation_id()),
        parameters: handler.spec_parameters().map_values(|name: Seq<char>| query_parameter(name)),
    }
}

/// The operations that a document lists once the operations of `handlers`
/// were added to an empty document, one after the other.
pub open spec fn listed(handlers: Seq<Handler>) -> Map<(Seq<char>, Method), OperationView>
    decreases handlers.len(),
{
    if handlers.len() == 0 {
        Map::empty()
    } else {
        listed(handlers.drop_last()).insert(
            (handlers.last().spec_path(), Method::Get),
            described(handlers.last()),
        )
    }
}

/// The operations of the generated document: one for each registered route,
/// under its path and the method `GET`, and no other.
pub open spec fn api_operations() -> Map<(Seq<char>, Method), OperationView> {
    Map::new(
        |key: (Seq<char>, Method)| key.1 == Method::Get && registered(key.0) is Some,
        |key: (Seq<char>, Method)| described(registered(key.0).unwrap()),
    )
}

/// Whether `doc` is the API description of this service, as far as the names
/// above tell.
pub open spec fn describes_api(doc: utoipa::openapi::OpenApi) -> bool {
    &&& document_info(doc) == api_info()
    &&& document_operations(doc) == api_operations()
}

/// Adding the operations of the registered routes to an empty document, one
/// after the other, lists each route under its own path and no other.
pub proof fn lemma_listed_routes()
    ensures
        listed(route_table()) == api_operations(),
{
    lemma_paths_distinct();
    let table = route_table();
    let first = table.drop_last();
    assert(first =~= seq![Handler::HelloWorld]);
    assert(first.drop_last() =~= Seq::<Handler>::empty());
    reveal_with_fuel(listed, 3);
    let world = (Handler::HelloWorld.spec_path(), Method::Get);
    let name = (Handler::HelloWithName.spec_path(), Method::Get);
    assert(api_operations().dom().contains(world));
    assert(api_operations().dom().contains(name));
    assert(listed(table) =~= api_operations());
}

/// The generated document lists exactly two operations: `GET /hello-world`,
/// which takes no parameter, and `GET /hello-with-name`, which takes the one
/// query parameter `name`, required and text.
pub proof fn law_two_operations()
    ensures
        api_operations().dom() == set![
            ("/hello-world"@, Method::Get),
            ("/hello-with-name"@, Method::Get),
        ],
        api_operations().dom().len() == 2,
        api_operations()[("/hello-world"@, Method::Get)] == (OperationView {
            operation_id: Some("hello_world"@),
            parameters: Seq::empty(),
        }),
        api_operations()[("/hello-with-name"@, Method::Get)] == (OperationView {
            operation_id: Some("hello_with_name"@),
            parameters: seq![query_parameter("name"@)],
        }),
{
    lemma_paths_distinct();
    let world = ("/hello-world"@, Method::Get);
    let name = ("/hello-with-name"@, Method::Get);
    assert(registered(world.0) == Some(Handler::HelloWorld));
    assert(registered(name.0) == Some(Handler::HelloWithName));
    assert(api_operations().dom() =~= set![world, name]);
    assert(set![world, name] =~= Set::empty().insert(world).insert(name));
    assert(described(Handler::HelloWorld).parameters =~= Seq::empty());
    assert(described(Handler::HelloWithName).parameters =~= seq![query_parameter("name"@)]);
}

/// Why no description text could be produced.
#[derive(Debug, Clone, Copy, PartialEq, Eq)]
pub enum DocError {
    /// The document could not be rendered as JSON.
    Render,
}

/// The API description of the service.
pub struct ApiDoc;

impl ApiDoc {
    /// Builds the `utoipa` operation that describes `handler`: its operation id
    /// and its query parameters, in order.
    fn operation(handler: Handler) -> (operation: utoipa::openapi::path::OperationBuilder)
        ensures
            operation_id_of(operation) == described(handler).operation_id,
            operation_parameters(operation) == described(handler).parameters,
    {
        let names = handler.parameters();
        let mut operation = new_operation(handler.operation_id());
        let ghost wanted = described(handler).parameters;
        let mut i: usize = 0;
        while i < names.len()
            invariant
                i <= names.len(),
                names@.len() == handler.spec_parameters().len(),
                forall|j: int| 0 <= j < names@.len() ==> names@[j]@ == handler.spec_parameters()[j],
                wanted == described(handler).parameters,
                operation_id_of(operation) == described(handler).operation_id,
                operation_parameters(operation) == wanted.take(i as int),
            decreases names.len() - i,
        {
            operation = with_query_parameter(operation, names[i]);
            proof {
                assert(wanted.take(i as int + 1) =~= wanted.take(i as int).push(wanted[i as int]));
            }
            i += 1;
        }
        proof {
            assert(wanted.take(i as int) =~= wanted);
        }
        operation
    }

    /// Generates the API description from the route registry.
    ///
    /// The document carries the title, version and description of the service
    /// and lists one `GET` operation for each registered route, under the
    /// route's path, with the handler's operation id and query parameters. It
    /// lists no other operation.
    pub fn openapi() -> (doc: utoipa::openapi::OpenApi)
        ensures
            describes_api(doc),
    {
        let table = routes();
        let mut doc = new_document(API_TITLE, API_VERSION, API_DESCRIPTION);
        let mut i: usize = 0;
        proof {
            assert(route_table().take(0) =~= Seq::<Handler>::empty());
        }
        while i < table.len()
            invariant
                i <= table.len(),
                table@.len() == route_table().len(),
                forall|j: int|
                    0 <= j < table@.len() ==> table@[j].handler == route_table()[j]
                        && table@[j].path@ == route_table()[j].spec_path(),
                document_info(doc) == api_info(),
                document_operations(doc) == listed(route_table().take(i as int)),
            decreases table.len() - i,
        {
            let route: Route = table[i];
            let operation = ApiDoc::operation(route.handler);
            add_get_operation(&mut doc, route.path, operation);
            proof {
                let done = route_table().take(i as int + 1);
                assert(done.drop_last() =~= route_table().take(i as int));
                assert(done.last() == route_table()[i as int]);
            }
            i += 1;
        }
        proof {
            assert(route_table().take(i as int) =~= route_table());
            lemma_listed_routes();
        }
        doc
    }
}

/// Turns the outcome of rendering into the outcome of this library: the text
/// unchanged, or the one error there is.
pub fn rendered_text(rendered: Result<String, serde_json::Error>) -> (result: Result<String, DocError>)
    ensures
        match result {
            Ok(text) => rendered matches Ok(given) && text == given,
            Err(error) => rendered is Err && error == DocError::Render,
        },
{
    match rendered {
        Ok(text) => Ok(text),
        Err(_) => Err(DocError::Render),
    }
}

/// Generates the API description and renders it as pretty-printed JSON.
///
/// The result is what rendering makes of a document that describes this
/// service: its text, or the error exactly where `serde_json` fails on it.
pub fn gen_api_doc() -> (result: Result<String, DocError>)
    ensures
        exists|doc: utoipa::openapi::OpenApi| #[trigger] describes_api(doc) && is_rendering(doc, result),
{
    let doc = ApiDoc::openapi();
    let result = rendered_text(to_pretty_json(&doc));
    proof {
        assert(describes_api(doc) && is_rendering(doc, result));
    }
    result
}

/// The text in the outcome of a rendering, nothing where it failed.
pub open spec fn text_of(rendered: Result<String, serde_json::Error>) -> Option<Seq<char>> {
    match rendered {
        Ok(text) => Some(text@),
        Err(_) => None,
    }
}

/// Whether `result` is what this library returns for the rendering of `doc`:
/// the text where `doc` renders, and the error where it does not.
pub open spec fn is_rendering(doc: utoipa::openapi::OpenApi, result: Result<String, DocError>) -> bool {
    match result {
        Ok(text) => pretty_text(doc) == Some(text@),
        Err(error) => pretty_text(doc) is None && error == DocError::Render,
    }
}

} // verus!
