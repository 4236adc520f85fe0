//! The record of what the user has chosen.

use vstd::prelude::*;
use crate::quality::ModelQuality;

verus! {

/// What an [`App`] holds, as plain mathematical values. Contracts speak of
/// this record; nothing but these four values bears on the command line.
pub struct Options {
    /// The chosen video, or `None` while the user has picked none.
    pub input_file: Option<Seq<char>>,
    /// The model the tool is to load.
    pub model: ModelQuality,
    /// Whether the tool writes a subtitle file.
    pub output_srt_file: bool,
    /// Whether the tool writes the subtitle file and nothing else.
    pub only_output_srt: bool,
}

impl Options {
    /// The choices a fresh session starts from.
    pub open spec fn initial() -> Options {
        Options {
            input_file: None,
            model: ModelQuality::Medium,
            output_srt_file: true,
            only_output_srt: true,
        }
    }

    /// These options with `path` in place of the video.
    pub open spec fn with_input_file(self, path: Option<Seq<char>>) -> Options {
        Options { input_file: path, ..self }
    }

    /// These options with `model` in place of the model.
    pub open spec fn with_model(self, model: ModelQuality) -> Options {
        Options { model, ..self }
    }

    /// These options with the first switch set to `on`.
    pub open spec fn with_output_srt_file(self, on: bool) -> Options {
        Options { output_srt_file: on, ..self }
    }

    /// These options with the second switch set to `on`.
    pub open spec fn with_only_output_srt(self, on: bool) -> Options {
        Options { only_output_srt: on, ..self }
    }

    /// These options after one click on the first switch.
    pub open spec fn toggle_output_srt_file(self) -> Options {
        self.with_output_srt_file(!self.output_srt_file)
    }

    /// These options after one click on the second switch.
    pub open spec fn toggle_only_output_srt(self) -> Options {
        self.with_only_output_srt(!self.only_output_srt)
    }

    /// These options after the file dialog has closed with `picked`: a chosen
    /// path becomes the video, and a cancelled dialog leaves the video as it
    /// was.
    pub open spec fn after_pick(self, picked: Option<Seq<char>>) -> Options {
        match picked {
            Some(path) => self.with_input_file(Some(path)),
            None => self,
        }
    }
}

/// The choices of one session. The four values are independent: every
/// combination is a valid state, and no operation rejects one.
pub struct App {
    output_srt_file: bool,
    model: ModelQuality,
    only_output_srt: bool,
    input_file: Option<String>,
}

impl View for App {
    type V = Options;

    closed spec fn view(&self) -> Options {
        Options {
            input_file: self.input_file.deep_view(),
            model: self.model,
            output_srt_file: self.output_srt_file,
            only_output_srt: self.only_output_srt,
        }
    }
}

impl App {
    /// A session in which no video is picked yet and both switches are on.
    pub fn new() -> (app: App)
        ensures
            app@ == Options::initial(),
    {
        App {
            output_srt_file: true,
            model: ModelQuality::Medium,
            only_output_srt: true,
            input_file: None,
        }
    }

    pub fn input_file(&self) -> (path: &Option<String>)
        ensures
            path.deep_view() == self@.input_file,
    {
        &self.input_file
    }

    pub fn model(&self) -> (quality: ModelQuality)
        ensures
            quality == self@.model,
    {
        self.model
    }

    pub fn output_srt_file(&self) -> (on: bool)
        ensures
            on == self@.output_srt_file,
    {
        self.output_srt_file
    }

    pub fn only_output_srt(&self) -> (on: bool)
        ensures
            on == self@.only_output_srt,
    {
        self.only_output_srt
    }

    /// Puts `path` in place of the video; `None` clears it.
    pub fn set_input_file(&mut self, path: Option<String>)
        ensures
            final(self)@ == old(self)@.with_input_file(path.deep_view()),
    {
        self.input_file = path;
    }

    pub fn set_model(&mut self, model: ModelQuality)
        ensures
            final(self)@ == old(self)@.with_model(model),
    {
        self.model = model;
    }

    pub fn set_output_srt_file(&mut self, on: bool)
        ensures
            final(self)@ == old(self)@.with_output_srt_file(on),
    {
        self.output_srt_file = on;
    }

    pub fn set_only_output_srt(&mut self, on: bool)
        ensures
            final(self)@ == old(self)@.with_only_output_srt(on),
    {
        self.only_output_srt = on;
    }

    /// One click on the first switch: it flips, whatever a drawing of the
    /// switch is showing at that moment.
    pub fn toggle_output_srt_file(&mut self)
        ensures
            final(self)@ == old(self)@.toggle_output_srt_file(),
    {
        self.output_srt_file = !self.output_srt_file;
    }

    /// One click on the second switch.
    pub fn toggle_only_output_srt(&mut self)
        ensures
            final(self)@ == old(self)@.toggle_only_output_srt(),
    {
        self.only_output_srt = !self.only_output_srt;
    }

    /// The user has chosen `choice` in the selector. Returns whether that
    /// changed the model: choosing the model already in use changes nothing.
    pub fn select_model(&mut self, choice: ModelQuality) -> (changed: bool)
        ensures
            final(self)@ == old(self)@.with_model(choice),
            changed == (choice != old(self)@.model),
    {
        if self.model == choice {
            false
        } else {
            self.model = choice;
            true
        }
    }

    /// The file dialog has closed with `picked`: a chosen path, or `None`
    /// where the user cancelled.
    pub fn file_picked(&mut self, picked: Option<String>)
        ensures
            final(self)@ == old(self)@.after_pick(picked.deep_view()),
    {
        if picked.is_some() {
            self.input_file = picked;
        }
    }
}

impl Default for App {
    fn default() -> (app: App)
        ensures
            app@ == Options::initial(),
    {
        App::new()
    }
}

} // verus!
