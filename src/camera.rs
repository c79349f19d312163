use vstd::prelude::*;
use vstd::string::StringExecFns;
use crate::tools::{ParamSpec, ToolDescriptor};

verus! {

/// The name under which the camera tool is registered.
pub const CAMERA_TOOL_NAME: &'static str = "my_tool";

pub const CAMERA_TOOL_DESCRIPTION: &'static str = "My custom tool";

/// What the model is told about the `camera` parameter.
pub const CAMERA_HINT: &'static str = "Enables control of what camera will be presented to viewer. Possible values are:\n- `ambo` for viewing the reader who would be reading from the podium\n- `altar` for viewing the altar\n- `wide` for a wide view of the sanctuary\n- `narrow` for a narrow view of the stage ";

/// The text the camera tool answers with once it has switched the view.
pub const CAMERA_TOOL_REPLY: &'static str = "done";

/// The parameters of the camera tool: which view to present.
#[derive(Clone, Debug)]
pub struct MyToolParams {
    pub camera: String,
}

impl MyToolParams {
    pub fn new(camera: String) -> (r: Self)
        ensures
            r.camera == camera,
    {
        MyToolParams { camera }
    }
}

/// The descriptor of the camera tool: one string parameter, `camera`.
pub fn camera_tool_descriptor() -> (d: ToolDescriptor)
    ensures
        d.name@ == CAMERA_TOOL_NAME@,
        d.description@ == CAMERA_TOOL_DESCRIPTION@,
        d.params@.len() == 1,
        d.params@[0].name@ == "camera"@,
        d.params@[0].json_type@ == "string"@,
        d.params@[0].hint@ == CAMERA_HINT@,
{
    let mut params: Vec<ParamSpec> = Vec::new();
    params.push(
        ParamSpec {
            name: String::from_str("camera"),
            json_type: String::from_str("string"),
            hint: String::from_str(CAMERA_HINT),
        },
    );
    ToolDescriptor {
        name: String::from_str(CAMERA_TOOL_NAME),
        description: String::from_str(CAMERA_TOOL_DESCRIPTION),
        params,
    }
}

/// The answer of the camera tool to a call with `params`.
pub fn camera_tool_reply(params: &MyToolParams) -> (r: String)
    ensures
        r@ == CAMERA_TOOL_REPLY@,
{
    String::from_str(CAMERA_TOOL_REPLY)
}

} // verus!
