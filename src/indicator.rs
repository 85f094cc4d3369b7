//! A textual progress spinner: each update yields the next line to show.
use vstd::prelude::*;
use vstd::string::*;

verus! {

/// The spinner's frames, in order.
pub open spec fn spinner_frames() -> Seq<Seq<char>> {
    seq!["|"@, "/"@, "-"@, "\\"@]
}

/// A progress spinner with a message.
pub struct LoadingIndicator {
    pub spinner: Vec<&'static str>,
    pub current: usize,
    pub message: String,
}

impl LoadingIndicator {
    /// The spinner's invariant: its four frames, and a current frame among
    /// them.
    pub open spec fn wf(&self) -> bool {
        &&& self.spinner@.len() == 4
        &&& forall|i: int| 0 <= i < 4 ==> (#[trigger] self.spinner@[i])@ == spinner_frames()[i]
        &&& self.current < 4
    }

    /// A spinner at its first frame, showing `message`.
    pub fn new(message: &str) -> (r: LoadingIndicator)
        ensures
            r.wf(),
            r.current == 0,
            r.message@ == message@,
    {
        let mut spinner: Vec<&'static str> = Vec::new();
        spinner.push("|");
        spinner.push("/");
        spinner.push("-");
        spinner.push("\\");
        LoadingIndicator { spinner, current: 0, message: String::from_str(message) }
    }

    /// The line showing the current frame and the message, after a carriage
    /// return; the spinner moves on to the next frame.
    pub fn update(&mut self) -> (r: String)
        requires
            old(self).wf(),
        ensures
            final(self).wf(),
            r@ == "\r"@ + spinner_frames()[old(self).current as int] + " "@ + old(self).message@ + " "@,
            final(self).current == (old(self).current + 1) % 4,
            final(self).message == old(self).message,
    {
        let mut line = String::from_str("\r");
        line.append(self.spinner[self.current]);
        line.append(" ");
        line.append(self.message.as_str());
        line.append(" ");
        self.current = (self.current + 1) % self.spinner.len();
        line
    }

    /// The closing line for the message.
    pub fn finish(&self) -> (r: String)
        ensures
            r@ == "\r[+] "@ + self.message@ + " completed\n"@,
    {
        let mut line = String::from_str("\r[+] ");
        line.append(self.message.as_str());
        line.append(" completed\n");
        line
    }
}

} // verus!
