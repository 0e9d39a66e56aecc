//! What the command line and the environment ask for.

use vstd::prelude::*;

verus! {

/// The shared transport that a command line names: its last argument behind the
/// program's name, empty where there is none.
pub open spec fn named_path(args: Seq<String>) -> Seq<char> {
    if args.len() >= 2 {
        args.last()@
    } else {
        Seq::empty()
    }
}

/// The font that the bar is drawn in unless another is asked for.
pub open spec fn default_font() -> Seq<char> {
    "monospace 11"@
}

/// The path of the shared transport; `args` starts with the program's name.
pub fn shared_path(args: &Vec<String>) -> (path: String)
    ensures
        path@ == named_path(args@),
{
    if args.len() >= 2 {
        args[args.len() - 1].clone()
    } else {
        String::new()
    }
}

/// Whether a transport is to be opened at a path.
pub fn wants_transport(path: &String) -> (wanted: bool)
    ensures
        wanted == (path@.len() > 0),
{
    !path.as_str().is_empty()
}

/// The description of the font to draw in, given what the environment asks for.
pub fn font_description(requested: Option<String>) -> (font: String)
    ensures
        requested matches Some(name) ==> font@ == name@,
        requested is None ==> font@ == default_font(),
{
    match requested {
        Some(name) => name,
        None => "monospace 11".to_owned(),
    }
}

/// Of several arguments the last one names the transport, whatever the ones before
/// it are; the program's own name never does.
pub proof fn law_last_argument_wins(args: Seq<String>, last: String)
    ensures
        args.len() >= 1 ==> named_path(args.push(last)) == last@,
        args.len() == 0 ==> named_path(args.push(last)) == Seq::<char>::empty(),
        named_path(Seq::<String>::empty()) == Seq::<char>::empty(),
{
}

/// Unless another font is asked for, the bar is set in eleven point monospace.
pub proof fn law_default_font_is_monospace()
    ensures
        default_font() == "monospace 11"@,
{
}

/// Any call of [`shared_path`] gives the last argument behind the program's name,
/// or nothing; any call of [`wants_transport`] tells whether a path is not empty.
pub proof fn law_path_decides_on_the_transport(args: &Vec<String>, path: String, wanted: bool)
    requires
        call_ensures(shared_path, (args,), path),
        call_ensures(wants_transport, (&path,), wanted),
    ensures
        args@.len() >= 2 ==> path@ == args@[args@.len() - 1]@,
        args@.len() < 2 ==> path@.len() == 0 && !wanted,
        wanted <==> path@.len() > 0,
{
}

/// Any call of [`font_description`] gives the requested font, whatever it is, and
/// the default only where none was requested.
pub proof fn law_requested_font_is_used(requested: Option<String>, font: String)
    requires
        call_ensures(font_description, (requested,), font),
    ensures
        requested matches Some(name) ==> font@ == name@,
        requested is None ==> font@ == "monospace 11"@,
{
}

} // verus!
