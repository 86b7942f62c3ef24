use vstd::prelude::*;

verus! {

/// The path of the OBJ file named on the command line `args` (program name
/// first); an error unless exactly one file is named.
pub fn obj_file_arg(args: &Vec<String>) -> (r: Result<&String, &'static str>)
    ensures
        r is Ok <==> args@.len() == 2,
        r matches Ok(path) ==> *path == args@[1],
        r matches Err(m) ==> m@ == "Error: Not enough parameters. Use: spot file.obj"@,
{
    if args.len() != 2 {
        return Err("Error: Not enough parameters. Use: spot file.obj");
    }
    Ok(&args[1])
}

} // verus!
