use vstd::prelude::*;
use vstd::string::{StrSliceExecFns, StringExecFns};
use crate::error::{Error, SaveStep};
use crate::save_dir::save_dir_choice;
use crate::stamp::{file_name_text, screenshot_file_name, Timestamp};

verus! {

/// What the caller is asked to do next.
#[derive(Debug)]
pub enum Step {
    /// Look up the device identifier of the filesystem holding this path.
    ReadDevice(String),
    /// Copy the file `from` to `to`.
    Copy { from: String, to: String },
    /// Delete this file.
    Remove(String),
    /// Rename `from` to `to`.
    Rename { from: String, to: String },
    /// Nothing is left to do: the result is in the relocation.
    Finish,
}

/// What came of the last step.
#[derive(Debug)]
pub enum Event {
    /// A device identifier was read.
    Device(u64),
    /// A copy, removal or rename succeeded.
    Completed,
    /// The step failed with this I/O error.
    Failed(String),
}

/// How far a relocation has come.
#[derive(Debug)]
pub enum Stage {
    DestinationDevice,
    SourceDevice(u64),
    Copying,
    RemovingTemp,
    Renaming,
    Finished(Result<String, Error>),
}

/// Moving a captured screenshot from `source` to `target`, inside `directory`.
#[derive(Debug)]
pub struct Relocation {
    pub source: String,
    pub directory: String,
    pub target: String,
    pub stage: Stage,
}

/// The path of `name` inside `dir`, as Unix paths join: an absolute `name`
/// stands alone, and a separator goes between the two unless `dir` is empty
/// or already ends in one.
pub open spec fn joined_path(dir: Seq<char>, name: Seq<char>) -> Seq<char> {
    if name.len() > 0 && name[0] == '/' {
        name
    } else if dir.len() == 0 || dir.last() == '/' {
        dir + name
    } else {
        dir + seq!['/'] + name
    }
}

/// Relies on std::path::Path::join: an absolute `name` replaces `dir`,
/// otherwise `name` is appended after a separator where `dir` does not end
/// in one. Both inputs are UTF-8, so the lossy conversion back to text
/// changes nothing.
#[verifier::external_body]
fn join_path(dir: &str, name: &str) -> (r: String)
    ensures
        r@ == joined_path(dir@, name@),
{
    std::path::Path::new(dir).join(name).to_string_lossy().into_owned()
}

pub fn screenshot_source(scheme: &str, path: &str) -> (r: Result<String, Error>)
    ensures
        scheme@ == "file"@ ==> r is Ok && r->Ok_0@ == path@,
        scheme@ != "file"@ ==> r is Err && r->Err_0 is UnsupportedScheme
            && r->Err_0->UnsupportedScheme_0@ == scheme@,
{
    if str_eq(scheme, "file") {
        Ok(String::from_str(path))
    } else {
        Err(Error::UnsupportedScheme(String::from_str(scheme)))
    }
}

fn str_eq(a: &str, b: &str) -> (r: bool)
    ensures
        r == (a@ == b@),
{
    let n = a.unicode_len();
    if n != b.unicode_len() {
        return false;
    }
    let mut i: usize = 0;
    while i < n
        invariant
            n == a@.len(),
            n == b@.len(),
            i <= n,
            forall|k: int| 0 <= k < i ==> a@[k] == b@[k],
        decreases n - i,
    {
        if a.get_char(i) != b.get_char(i) {
            return false;
        }
        i = i + 1;
    }
    assert(a@ =~= b@);
    true
}

/// The file system as far as relocation sees it: each path's contents.
pub type Files = Map<Seq<char>, Seq<u8>>;

/// What carrying out a step does to the files.
pub open spec fn apply(files: Files, step: Step) -> Files {
    match step {
        Step::Copy { from, to } => files.insert(to@, files[from@]),
        Step::Remove(path) => files.remove(path@),
        Step::Rename { from, to } => files.remove(from@).insert(to@, files[from@]),
        _ => files,
    }
}

impl Relocation {
    /// The step asked for in the current stage.
    pub open spec fn step_spec(self) -> Step {
        match self.stage {
            Stage::DestinationDevice => Step::ReadDevice(self.directory),
            Stage::SourceDevice(_) => Step::ReadDevice(self.source),
            Stage::Copying => Step::Copy { from: self.source, to: self.target },
            Stage::RemovingTemp => Step::Remove(self.source),
            Stage::Renaming => Step::Rename { from: self.source, to: self.target },
            Stage::Finished(_) => Step::Finish,
        }
    }

    pub open spec fn failed(self, step: SaveStep, msg: String) -> Relocation {
        Relocation {
            stage: Stage::Finished(Err(Error::SaveScreenshot { step, error: msg })),
            ..self
        }
    }

    pub open spec fn moved(self, stage: Stage) -> Relocation {
        Relocation { stage, ..self }
    }

    /// The relocation once `e` has answered the current step. An event that
    /// does not answer it leaves the relocation as it was.
    pub open spec fn after(self, e: Event) -> Relocation {
        match (self.stage, e) {
            (Stage::DestinationDevice, Event::Device(d)) => self.moved(Stage::SourceDevice(d)),
            (Stage::DestinationDevice, Event::Failed(m)) => self.failed(
                SaveStep::MetadataDestination,
                m,
            ),
            (Stage::SourceDevice(d), Event::Device(s)) => if d == s {
                self.moved(Stage::Renaming)
            } else {
                self.moved(Stage::Copying)
            },
            (Stage::SourceDevice(_), Event::Failed(m)) => self.failed(SaveStep::MetadataSource, m),
            (Stage::Copying, Event::Completed) => self.moved(Stage::RemovingTemp),
            (Stage::Copying, Event::Failed(m)) => self.failed(SaveStep::Copy, m),
            (Stage::RemovingTemp, Event::Completed) => self.moved(Stage::Finished(Ok(self.target))),
            (Stage::RemovingTemp, Event::Failed(m)) => self.failed(SaveStep::RemoveTemp, m),
            (Stage::Renaming, Event::Completed) => self.moved(Stage::Finished(Ok(self.target))),
            (Stage::Renaming, Event::Failed(m)) => self.failed(SaveStep::Rename, m),
            _ => self,
        }
    }

    /// The relocation after a run of events.
    pub open spec fn run(self, events: Seq<Event>) -> Relocation
        decreases events.len(),
    {
        if events.len() == 0 {
            self
        } else {
            self.after(events[0]).run(events.drop_first())
        }
    }

    /// The steps carried out during a run of events, one for each event.
    pub open spec fn steps(self, events: Seq<Event>) -> Seq<Step>
        decreases events.len(),
    {
        if events.len() == 0 {
            seq![]
        } else {
            seq![self.step_spec()] + self.after(events[0]).steps(events.drop_first())
        }
    }

    /// The files after a run: a step changes them only when its event says
    /// it completed.
    pub open spec fn effect(self, files: Files, events: Seq<Event>) -> Files
        decreases events.len(),
    {
        if events.len() == 0 {
            files
        } else {
            let done = if events[0] is Completed {
                apply(files, self.step_spec())
            } else {
                files
            };
            self.after(events[0]).effect(done, events.drop_first())
        }
    }

    /// What `begin` makes of its inputs: a URI that is not a file is refused;
    /// without a save directory the file stays where the portal put it;
    /// otherwise it is to move into the directory under a name from `now`.
    pub open spec fn started_from(
        self,
        save_dir: Option<String>,
        scheme: Seq<char>,
        path: Seq<char>,
        now: Timestamp,
    ) -> bool {
        if scheme != "file"@ {
            &&& self.stage is Finished
            &&& self.stage->Finished_0 is Err
            &&& self.stage->Finished_0->Err_0 is UnsupportedScheme
            &&& self.stage->Finished_0->Err_0->UnsupportedScheme_0@ == scheme
        } else if save_dir is None {
            &&& self.stage is Finished
            &&& self.stage->Finished_0 is Ok
            &&& self.stage->Finished_0->Ok_0@ == path
        } else {
            &&& self.stage is DestinationDevice
            &&& self.source@ == path
            &&& self.directory == save_dir->Some_0
            &&& self.target@ == joined_path(self.directory@, file_name_text(now))
        }
    }

    pub open spec fn is_finished(self) -> bool {
        self.stage is Finished
    }

    /// Starts saving a captured screenshot. `save_dir` is where it goes (see
    /// `resolve_save_dir`); `scheme` and `path` are those of the URI the
    /// portal handed back; `now` is the local time the file is named after.
    pub fn begin(save_dir: Option<String>, scheme: &str, path: &str, now: &Timestamp) -> (r:
        Relocation)
        ensures
            r.started_from(save_dir, scheme@, path@, *now),
    {
        match screenshot_source(scheme, path) {
            Err(e) => Relocation {
                source: String::from_str(path),
                directory: String::new(),
                target: String::from_str(path),
                stage: Stage::Finished(Err(e)),
            },
            Ok(source) => match save_dir {
                None => {
                    let target = source.clone();
                    Relocation {
                        source,
                        directory: String::new(),
                        target: target.clone(),
                        stage: Stage::Finished(Ok(target)),
                    }
                },
                Some(directory) => {
                    let name = screenshot_file_name(now);
                    let target = join_path(directory.as_str(), name.as_str());
                    Relocation { source, directory, target, stage: Stage::DestinationDevice }
                },
            },
        }
    }

    /// The step to carry out next.
    pub fn step(&self) -> (r: Step)
        ensures
            r == self.step_spec(),
    {
        match &self.stage {
            Stage::DestinationDevice => Step::ReadDevice(self.directory.clone()),
            Stage::SourceDevice(_) => Step::ReadDevice(self.source.clone()),
            Stage::Copying => Step::Copy { from: self.source.clone(), to: self.target.clone() },
            Stage::RemovingTemp => Step::Remove(self.source.clone()),
            Stage::Renaming => Step::Rename { from: self.source.clone(), to: self.target.clone() },
            Stage::Finished(_) => Step::Finish,
        }
    }

    /// Records what came of the current step.
    pub fn advance(&mut self, e: Event)
        ensures
            *final(self) == old(self).after(e),
    {
        let mut stage = Stage::DestinationDevice;
        std::mem::swap(&mut stage, &mut self.stage);
        let next = match (stage, e) {
            (Stage::DestinationDevice, Event::Device(d)) => Stage::SourceDevice(d),
            (Stage::DestinationDevice, Event::Failed(m)) => Stage::Finished(
                Err(Error::SaveScreenshot { step: SaveStep::MetadataDestination, error: m }),
            ),
            (Stage::SourceDevice(d), Event::Device(s)) => if d == s {
                Stage::Renaming
            } else {
                Stage::Copying
            },
            (Stage::SourceDevice(_), Event::Failed(m)) => Stage::Finished(
                Err(Error::SaveScreenshot { step: SaveStep::MetadataSource, error: m }),
            ),
            (Stage::Copying, Event::Completed) => Stage::RemovingTemp,
            (Stage::Copying, Event::Failed(m)) => Stage::Finished(
                Err(Error::SaveScreenshot { step: SaveStep::Copy, error: m }),
            ),
            (Stage::RemovingTemp, Event::Completed) => Stage::Finished(Ok(self.target.clone())),
            (Stage::RemovingTemp, Event::Failed(m)) => Stage::Finished(
                Err(Error::SaveScreenshot { step: SaveStep::RemoveTemp, error: m }),
            ),
            (Stage::Renaming, Event::Completed) => Stage::Finished(Ok(self.target.clone())),
            (Stage::Renaming, Event::Failed(m)) => Stage::Finished(
                Err(Error::SaveScreenshot { step: SaveStep::Rename, error: m }),
            ),
            (stage, _) => stage,
        };
        self.stage = next;
    }

    /// The result, once the relocation has finished.
    pub fn into_result(self) -> (r: Option<Result<String, Error>>)
        ensures
            self.stage is Finished ==> r == Some(self.stage->Finished_0),
            !(self.stage is Finished) ==> r is None,
    {
        match self.stage {
            Stage::Finished(res) => Some(res),
            _ => None,
        }
    }
}

/// The files after `from` has been moved to `to`.
pub open spec fn moved(files: Files, from: Seq<char>, to: Seq<char>) -> Files {
    files.remove(from).insert(to, files[from])
}

/// On one device a screenshot is renamed into place: both devices are read,
/// then the file is renamed. The files change exactly as by a move: the
/// target holds what the temporary file held, no other path changes, and
/// the temporary path is gone unless it already was the target.
pub proof fn lemma_same_device_renames(r: Relocation, dev: u64, files: Files)
    requires
        r.stage is DestinationDevice,
        files.contains_key(r.source@),
    ensures
        ({
            let events = seq![Event::Device(dev), Event::Device(dev), Event::Completed];
            &&& r.steps(events) == seq![
                Step::ReadDevice(r.directory),
                Step::ReadDevice(r.source),
                Step::Rename { from: r.source, to: r.target },
            ]
            &&& r.run(events).stage == Stage::Finished(Ok(r.target))
            &&& r.effect(files, events) == moved(files, r.source@, r.target@)
            &&& r.effect(files, events).contains_key(r.target@)
            &&& r.effect(files, events)[r.target@] == files[r.source@]
            &&& r.source@ != r.target@ ==> !r.effect(files, events).contains_key(r.source@)
        }),
{
    let events = seq![Event::Device(dev), Event::Device(dev), Event::Completed];
    let r1 = r.after(events[0]);
    let r2 = r1.after(events[1]);
    let r3 = r2.after(events[2]);
    let e1 = events.drop_first();
    let e2 = e1.drop_first();
    assert(e1 =~= seq![Event::Device(dev), Event::Completed]);
    assert(e2 =~= seq![Event::Completed]);
    assert(e2.drop_first() =~= Seq::<Event>::empty());
    assert(r3.steps(e2.drop_first()) == Seq::<Step>::empty());
    assert(r2.steps(e2) =~= seq![r2.step_spec()]);
    assert(r1.steps(e1) =~= seq![r1.step_spec(), r2.step_spec()]);
    let f1 = apply(files, Step::Rename { from: r.source, to: r.target });
    assert(f1 == moved(files, r.source@, r.target@));
    assert(r3.effect(f1, e2.drop_first()) == f1);
    assert(r2.effect(files, e2) == f1);
    assert(r1.effect(files, e1) == f1);
    assert(r3.run(e2.drop_first()) == r3);
    assert(r2.run(e2) == r3);
    assert(r1.run(e1) == r3);
    assert(r.steps(events) =~= seq![
        Step::ReadDevice(r.directory),
        Step::ReadDevice(r.source),
        Step::Rename { from: r.source, to: r.target },
    ]);
}

/// Across devices a screenshot is copied into place and the temporary file
/// is then deleted: the target holds what the temporary file held and the
/// temporary path is gone. Where the two paths differ, which two devices
/// make sure of, the files change exactly as by a move.
pub proof fn lemma_other_device_copies(r: Relocation, dest: u64, src: u64, files: Files)
    requires
        r.stage is DestinationDevice,
        dest != src,
        files.contains_key(r.source@),
    ensures
        ({
            let events = seq![
                Event::Device(dest),
                Event::Device(src),
                Event::Completed,
                Event::Completed,
            ];
            &&& r.steps(events) == seq![
                Step::ReadDevice(r.directory),
                Step::ReadDevice(r.source),
                Step::Copy { from: r.source, to: r.target },
                Step::Remove(r.source),
            ]
            &&& r.run(events).stage == Stage::Finished(Ok(r.target))
            &&& r.effect(files, events) == files.insert(r.target@, files[r.source@]).remove(
                r.source@,
            )
            &&& !r.effect(files, events).contains_key(r.source@)
            &&& r.source@ != r.target@ ==> r.effect(files, events) == moved(
                files,
                r.source@,
                r.target@,
            )
            &&& r.source@ != r.target@ ==> r.effect(files, events).contains_key(r.target@)
            &&& r.source@ != r.target@ ==> r.effect(files, events)[r.target@] == files[r.source@]
        }),
{
    let events = seq![Event::Device(dest), Event::Device(src), Event::Completed, Event::Completed];
    let r1 = r.after(events[0]);
    let r2 = r1.after(events[1]);
    let r3 = r2.after(events[2]);
    let r4 = r3.after(events[3]);
    let e1 = events.drop_first();
    let e2 = e1.drop_first();
    let e3 = e2.drop_first();
    assert(e1 =~= seq![Event::Device(src), Event::Completed, Event::Completed]);
    assert(e2 =~= seq![Event::Completed, Event::Completed]);
    assert(e3 =~= seq![Event::Completed]);
    assert(e3.drop_first() =~= Seq::<Event>::empty());
    assert(r4.steps(e3.drop_first()) == Seq::<Step>::empty());
    assert(r3.steps(e3) =~= seq![r3.step_spec()]);
    assert(r2.steps(e2) =~= seq![r2.step_spec(), r3.step_spec()]);
    assert(r1.steps(e1) =~= seq![r1.step_spec(), r2.step_spec(), r3.step_spec()]);
    assert(r.steps(events) =~= seq![
        Step::ReadDevice(r.directory),
        Step::ReadDevice(r.source),
        Step::Copy { from: r.source, to: r.target },
        Step::Remove(r.source),
    ]);
    let f1 = apply(files, Step::Copy { from: r.source, to: r.target });
    let f2 = apply(f1, Step::Remove(r.source));
    assert(r4.effect(f2, e3.drop_first()) == f2);
    assert(r3.effect(f1, e3) == f2);
    assert(r2.effect(files, e2) == f2);
    assert(r1.effect(files, e1) == f2);
    assert(r4.run(e3.drop_first()) == r4);
    assert(r3.run(e3) == r4);
    assert(r2.run(e2) == r4);
    assert(r1.run(e1) == r4);
    if r.source@ != r.target@ {
        assert(f2 =~= moved(files, r.source@, r.target@));
    }
}

/// Without a save directory, a non-interactive capture of a file goes to the
/// pictures directory under the name from `now`, and moving it there, on one
/// device or across two, finishes with that path and leaves the files as a
/// move does.
pub proof fn lemma_pictures_fallback_moves(
    r: Relocation,
    save_dir_is_dir: bool,
    pictures: String,
    path: Seq<char>,
    now: Timestamp,
    dest: u64,
    src: u64,
    files: Files,
)
    requires
        r.started_from(
            save_dir_choice(false, None, save_dir_is_dir, Some(pictures))->Ok_0,
            "file"@,
            path,
            now,
        ),
        path != joined_path(pictures@, file_name_text(now)),
        files.contains_key(path),
    ensures
        ({
            let events = if dest == src {
                seq![Event::Device(dest), Event::Device(src), Event::Completed]
            } else {
                seq![Event::Device(dest), Event::Device(src), Event::Completed, Event::Completed]
            };
            let target = joined_path(pictures@, file_name_text(now));
            &&& r.target@ == target
            &&& r.run(events).stage == Stage::Finished(Ok(r.target))
            &&& r.effect(files, events) == moved(files, path, target)
        }),
{
    if dest == src {
        lemma_same_device_renames(r, dest, files);
    } else {
        lemma_other_device_copies(r, dest, src, files);
    }
}

/// A finished relocation, such as one refused for its URI scheme, asks for
/// nothing more: whatever events come, it stays as it is, every step is
/// `Finish`, and no file changes.
pub proof fn lemma_finished_touches_nothing(r: Relocation, events: Seq<Event>, files: Files)
    requires
        r.is_finished(),
    ensures
        r.run(events) == r,
        r.effect(files, events) == files,
        r.steps(events).len() == events.len(),
        forall|i: int| 0 <= i < events.len() ==> r.steps(events)[i] is Finish,
    decreases events.len(),
{
    if events.len() > 0 {
        lemma_finished_touches_nothing(r, events.drop_first(), files);
        let rest = r.steps(events.drop_first());
        assert(r.after(events[0]) == r);
        assert(r.steps(events) == seq![Step::Finish] + rest);
        assert forall|i: int| 0 <= i < events.len() implies r.steps(events)[i] is Finish by {
            if i > 0 {
                assert(r.steps(events)[i] == rest[i - 1]);
            }
        }
    }
}

} // verus!
