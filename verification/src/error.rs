use vstd::prelude::*;

verus! {

/// A failure of the video path, carried as a human readable message.
#[derive(Debug)]
pub struct VideoError {
    pub message: String,
}

impl VideoError {
    /// Builds an error holding `message`.
    pub fn new(message: &str) -> (res: VideoError)
        ensures
            res.message@ == message@,
    {
        VideoError { message: String::from_str(message) }
    }

    /// Builds an error that takes ownership of an already built message.
    pub fn from_message(message: String) -> (res: VideoError)
        ensures
            res.message@ == message@,
    {
        VideoError { message }
    }

    /// The text shown to the user for this error.
    pub fn message(&self) -> (res: &str)
        ensures
            res@ == self.message@,
    {
        self.message.as_str()
    }
}

} // verus!
