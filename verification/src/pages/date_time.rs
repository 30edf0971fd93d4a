use vstd::prelude::*;

verus! {

/// The settings page for the clock applet's time format.
#[derive(Debug)]
pub struct DateTime {
    /// Whether the clock applet's configuration could be opened.
    pub has_config: bool,
    /// Experimental strftime formatting.
    pub format_strftime: String,
}

/// What the date and time page is told.
#[derive(Debug)]
pub enum Message {
    Strftime(String),
}

/// How the clock page answers a message: its next state and what it writes.
pub open spec fn date_time_step(old: DateTime, fin: DateTime, message: Message, write: Option<String>) -> bool {
    &&& fin.has_config == old.has_config
    &&& fin.format_strftime@ == (match message { Message::Strftime(f) => f@ })
    &&& match write {
        Some(w) => old.has_config && w@ == fin.format_strftime@,
        None => !old.has_config,
    }
}

impl DateTime {
    /// The page with the format read from the applet's configuration, or an
    /// empty format when there is none.
    pub fn new(has_config: bool, format: Option<String>) -> (d: DateTime)
        ensures
            d.has_config == has_config,
            d.format_strftime@ == (match format { Some(f) => f@, None => Seq::<char>::empty() }),
    {
        let format_strftime = match format {
            Some(f) => f,
            None => String::new(),
        };
        DateTime { has_config, format_strftime }
    }

    /// Takes the new format, and returns it to be written to the applet's
    /// configuration when that could be opened.
    pub fn update(&mut self, message: Message) -> (write: Option<String>)
        ensures
            date_time_step(*old(self), *final(self), message, write),
    {
        match message {
            Message::Strftime(format) => {
                let written = format.clone();
                self.format_strftime = format;
                if self.has_config {
                    Some(written)
                } else {
                    None
                }
            },
        }
    }
}

} // verus!
