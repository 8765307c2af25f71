use vstd::prelude::*;

verus! {

/// An audio output device, as a player drives it. It plays at most one
/// stream at a time. The library assumes nothing of what its methods return.
pub trait AudioOutput {
    /// Halts the current stream, if there is one.
    fn stop(&mut self);

    /// Drops any current stream, then opens and decodes the file of the named
    /// track and starts playing it. Returns false when the file could not be
    /// opened or decoded; nothing plays then.
    fn load(&mut self, name: &String, ext: &String) -> bool;

    /// Sets the playback volume, in percent, of the current stream and of
    /// the streams that follow.
    fn set_volume(&mut self, percent: u8);

    /// Whether a stream is playing: it is neither paused nor run dry.
    fn is_running(&self) -> bool;
}

/// The output of a player whose device could not be acquired: every call is
/// a silent no-op and nothing ever plays.
pub struct NoOutput {}

impl NoOutput {
    pub fn new() -> NoOutput {
        NoOutput {}
    }
}

impl AudioOutput for NoOutput {
    fn stop(&mut self) {
    }

    fn load(&mut self, name: &String, ext: &String) -> bool {
        false
    }

    fn set_volume(&mut self, percent: u8) {
    }

    fn is_running(&self) -> bool {
        false
    }
}

/// A device together with a record of what has been handed to it: the track
/// last asked for, the track that plays (the one asked for, if the device
/// opened it, until the next stop), and the volume last set. Only the calls
/// below change the record, each together with the call it records.
pub struct Device<O> {
    backend: O,
    requested: Ghost<Option<(Seq<char>, Seq<char>)>>,
    playing: Ghost<Option<(Seq<char>, Seq<char>)>>,
    level: Ghost<Option<u8>>,
}

impl<O: AudioOutput> Device<O> {
    /// The (name, extension) of the track last handed to `load`.
    pub closed spec fn requested(&self) -> Option<(Seq<char>, Seq<char>)> {
        self.requested@
    }

    /// The (name, extension) of the track that plays, if any.
    pub closed spec fn playing(&self) -> Option<(Seq<char>, Seq<char>)> {
        self.playing@
    }

    /// The volume, in percent, last handed to the device.
    pub closed spec fn level(&self) -> Option<u8> {
        self.level@
    }

    /// A device to which nothing has been handed yet.
    pub fn new(backend: O) -> (r: Device<O>)
        ensures
            r.requested() is None,
            r.playing() is None,
            r.level() is None,
    {
        Device { backend, requested: Ghost(None), playing: Ghost(None), level: Ghost(None) }
    }

    /// Halts the current stream.
    pub fn stop(&mut self)
        ensures
            final(self).playing() is None,
            final(self).requested() == old(self).requested(),
            final(self).level() == old(self).level(),
    {
        self.backend.stop();
        self.playing = Ghost(None);
    }

    /// Hands the named track to the device. Returns whether it opened it.
    pub fn load(&mut self, name: &String, ext: &String) -> (opened: bool)
        ensures
            final(self).requested() == Some((name@, ext@)),
            opened ==> final(self).playing() == Some((name@, ext@)),
            !opened ==> final(self).playing() is None,
            final(self).level() == old(self).level(),
    {
        let opened = self.backend.load(name, ext);
        self.requested = Ghost(Some((name@, ext@)));
        self.playing = Ghost(
            if opened {
                Some((name@, ext@))
            } else {
                None
            },
        );
        opened
    }

    /// Hands a volume, in percent, to the device.
    pub fn set_volume(&mut self, percent: u8)
        ensures
            final(self).level() == Some(percent),
            final(self).requested() == old(self).requested(),
            final(self).playing() == old(self).playing(),
    {
        self.backend.set_volume(percent);
        self.level = Ghost(Some(percent));
    }

    /// What the device reports: whether a stream is playing.
    pub fn is_running(&self) -> bool {
        self.backend.is_running()
    }

    /// The device itself.
    pub fn backend(&self) -> &O {
        &self.backend
    }
}

} // verus!
