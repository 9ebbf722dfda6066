use vstd::prelude::*;

verus! {

/// Writes `message` to the browser console through `gloo::console`
/// (`console.log`). Nothing is claimed of it: it returns nothing and
/// changes nothing that this library can see.
#[verifier::external_body]
fn console_log(message: String) {
    gloo::console::externs::log(Box::from([wasm_bindgen::JsValue::from(message)]));
}

/// Logs `message` to the browser console; always answers `true`.
pub fn log(message: String) -> (logged: bool)
    ensures
        logged,
{
    console_log(message);
    true
}

} // verus!
