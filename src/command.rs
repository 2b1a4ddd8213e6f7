//! The two commands of the file tool, read from its arguments.
use vstd::prelude::*;

verus! {

#[verifier::external_type_specification]
#[verifier::external_body]
pub struct ExIoError(std::io::Error);

/// This program has two commands: compress or decompress from one file to
/// another.
pub enum Command {
    Compress { from: String, to: String },
    Decompress { from: String, to: String },
}

impl Command {
    /// Parse a `Command` from the given command line arguments: a subcommand
    /// word and exactly two paths.
    pub fn parse(args: Vec<String>) -> (r: Option<Command>)
        ensures
            match r {
                Some(Command::Compress { from, to }) => {
                    &&& args@.len() == 3
                    &&& args@[0]@ == "compress"@
                    &&& from@ == args@[1]@
                    &&& to@ == args@[2]@
                },
                Some(Command::Decompress { from, to }) => {
                    &&& args@.len() == 3
                    &&& args@[0]@ == "decompress"@
                    &&& from@ == args@[1]@
                    &&& to@ == args@[2]@
                },
                None => !(args@.len() == 3 && (args@[0]@ == "compress"@ || args@[0]@
                    == "decompress"@)),
            },
    {
        if args.len() != 3 {
            return None;
        }
        let compress_word = "compress".to_owned();
        let decompress_word = "decompress".to_owned();
        if args[0] == compress_word {
            Some(Command::Compress { from: args[1].clone(), to: args[2].clone() })
        } else if args[0] == decompress_word {
            Some(Command::Decompress { from: args[1].clone(), to: args[2].clone() })
        } else {
            None
        }
    }
}

#[verifier::external_type_specification]
pub struct ExIoErrorKind(std::io::ErrorKind);

/// The kind of the I/O error `e`, as `std::io::Error::kind` reports it.
pub uninterp spec fn io_error_kind(e: std::io::Error) -> std::io::ErrorKind;

/// The message of the I/O error `e`, as its `to_string` writes it.
pub uninterp spec fn io_error_text(e: std::io::Error) -> Seq<char>;

/// Relies on std::io::Error::new: an error of the given kind (here `Other`)
/// whose `kind()` reports that kind and whose text is the message.
#[verifier::external_body]
fn new_other_io_error(msg: &str) -> (r: std::io::Error)
    ensures
        io_error_kind(r) == std::io::ErrorKind::Other,
        io_error_text(r) == msg@,
{
    std::io::Error::new(std::io::ErrorKind::Other, msg)
}

/// Tiny helper to create a `std::io::Error` error result of kind
/// `std::io::ErrorKind::Other` from the given message.
pub fn other_io_error<T>(msg: &str) -> (r: Result<T, std::io::Error>)
    ensures
        match r {
            Err(e) => io_error_kind(e) == std::io::ErrorKind::Other && io_error_text(e) == msg@,
            Ok(_) => false,
        },
{
    Err(new_other_io_error(msg))
}

} // verus!
