use vstd::prelude::*;

use crate::engine::{
    spec_created_container, spec_running_container, ContainerAPIClient, ContainerModel,
    ContainerSpec, InspectedState, LogLine, LogLineModel, LogOrigin,
};
use crate::error::VerificationError;

verus! {

/// One container held by the in-memory engine.
struct ContainerRecord {
    name: String,
    image: String,
    status: String,
    command: Vec<String>,
    logs: Vec<LogLine>,
}

impl ContainerRecord {
    /// Abstract image of this record.
    spec fn model(self) -> ContainerModel {
        ContainerModel {
            image: self.image@,
            status: self.status@,
            command: self.command.deep_view(),
            logs: self.logs.deep_view(),
        }
    }
}

/// The engine state a list of records denotes: later records shadow earlier
/// ones of the same name (the operations below never produce two records of
/// one name, but the denotation does not depend on that).
spec fn records_map(records: Seq<ContainerRecord>) -> Map<Seq<char>, ContainerModel>
    decreases records.len(),
{
    if records.len() == 0 {
        Map::empty()
    } else {
        records_map(records.drop_last()).insert(
            records.last().name@,
            records.last().model(),
        )
    }
}

/// A name is in the denoted state exactly when some record carries it.
proof fn lemma_records_map_contains(records: Seq<ContainerRecord>, name: Seq<char>)
    ensures
        records_map(records).dom().contains(name) <==> exists|j: int|
            0 <= j < records.len() && records[j].name@ == name,
    decreases records.len(),
{
    if records.len() == 0 {
    } else {
        lemma_records_map_contains(records.drop_last(), name);
        if records.last().name@ == name {
            assert(records[records.len() - 1].name@ == name);
        } else {
            assert forall|j: int|
                0 <= j < records.len() && (#[trigger] records[j]).name@ == name implies 0 <= j
                < records.drop_last().len() && records.drop_last()[j].name@ == name by {
                assert(records.drop_last()[j] == records[j]);
            }
            assert forall|j: int|
                0 <= j < records.drop_last().len() && (#[trigger] records.drop_last()[j]).name@
                    == name implies records[j].name@ == name by {
                assert(records.drop_last()[j] == records[j]);
            }
        }
    }
}

/// The denoted state maps a name to the model of the last record carrying
/// that name.
proof fn lemma_records_map_value(records: Seq<ContainerRecord>, name: Seq<char>, i: int)
    requires
        0 <= i < records.len(),
        records[i].name@ == name,
        forall|j: int| i < j < records.len() ==> (#[trigger] records[j]).name@ != name,
    ensures
        records_map(records).dom().contains(name),
        records_map(records)[name] == records[i].model(),
    decreases records.len(),
{
    if i == records.len() - 1 {
        assert(records.last() == records[i]);
    } else {
        assert(records.last().name@ != name);
        assert(records.drop_last()[i] == records[i]);
        assert forall|j: int|
            i < j < records.drop_last().len() implies (#[trigger] records.drop_last()[j]).name@
            != name by {
            assert(records.drop_last()[j] == records[j]);
        }
        lemma_records_map_value(records.drop_last(), name, i);
    }
}

/// Denotation of a record put in front of a list: it only contributes its
/// own binding, and only when no later record shadows it.
proof fn lemma_records_map_cons(r: ContainerRecord, records: Seq<ContainerRecord>)
    ensures
        records_map(seq![r] + records) == if records_map(records).dom().contains(r.name@) {
            records_map(records)
        } else {
            records_map(records).insert(r.name@, r.model())
        },
    decreases records.len(),
{
    let t = seq![r] + records;
    if records.len() == 0 {
        assert(t.len() == 1);
        assert(t.drop_last() =~= records);
        assert(t.last() == r);
        assert(records_map(records) =~= Map::<Seq<char>, ContainerModel>::empty());
        assert(records_map(t) =~= records_map(records).insert(r.name@, r.model()));
    } else {
        lemma_records_map_cons(r, records.drop_last());
        assert(t.drop_last() =~= seq![r] + records.drop_last());
        assert(t.last() == records.last());
        let m0 = records_map(records.drop_last());
        if m0.dom().contains(r.name@) {
            assert(records_map(t) =~= records_map(records));
            assert(records_map(records).dom().contains(r.name@));
        } else {
            if records.last().name@ == r.name@ {
                assert(records_map(t) =~= m0.insert(r.name@, r.model()).insert(
                    records.last().name@,
                    records.last().model(),
                ));
                assert(records_map(t) =~= records_map(records));
                assert(records_map(records).dom().contains(r.name@));
            } else {
                assert(!records_map(records).dom().contains(r.name@));
                assert(records_map(t) =~= records_map(records).insert(r.name@, r.model()));
            }
        }
    }
}

/// Denotation of a pointwise transformation: rewriting, in place, every
/// record of one name with a model-level transform `f` rewrites exactly
/// that name's binding with `f`.
proof fn lemma_records_map_update(
    s1: Seq<ContainerRecord>,
    s2: Seq<ContainerRecord>,
    name: Seq<char>,
    f: spec_fn(ContainerModel) -> ContainerModel,
)
    requires
        s1.len() == s2.len(),
        forall|j: int| 0 <= j < s1.len() ==> (#[trigger] s2[j]).name@ == s1[j].name@,
        forall|j: int|
            0 <= j < s1.len() ==> (#[trigger] s2[j]).model() == if s1[j].name@ == name {
                f(s1[j].model())
            } else {
                s1[j].model()
            },
    ensures
        records_map(s1).dom().contains(name) ==> records_map(s2) == records_map(s1).insert(
            name,
            f(records_map(s1)[name]),
        ),
        !records_map(s1).dom().contains(name) ==> records_map(s2) == records_map(s1),
    decreases s1.len(),
{
    if s1.len() == 0 {
        assert(s2 =~= s1);
    } else {
        assert forall|j: int|
            0 <= j < s1.drop_last().len() implies (#[trigger] s2.drop_last()[j]).name@
            == s1.drop_last()[j].name@ by {
            assert(s1.drop_last()[j] == s1[j]);
            assert(s2.drop_last()[j] == s2[j]);
        }
        assert forall|j: int|
            0 <= j < s1.drop_last().len() implies (#[trigger] s2.drop_last()[j]).model() == if s1
                .drop_last()[j].name@ == name {
            f(s1.drop_last()[j].model())
        } else {
            s1.drop_last()[j].model()
        } by {
            assert(s1.drop_last()[j] == s1[j]);
            assert(s2.drop_last()[j] == s2[j]);
        }
        lemma_records_map_update(s1.drop_last(), s2.drop_last(), name, f);
        let m1 = records_map(s1.drop_last());
        let m2 = records_map(s2.drop_last());
        let l1 = s1.last();
        let l2 = s2.last();
        assert(l1 == s1[s1.len() - 1]);
        assert(l2 == s2[s1.len() - 1]);
        if l1.name@ == name {
            assert(l2.model() == f(l1.model()));
            assert(records_map(s1)[name] == l1.model());
            if m1.dom().contains(name) {
                assert(records_map(s2) =~= records_map(s1).insert(name, f(l1.model())));
            } else {
                assert(records_map(s2) =~= records_map(s1).insert(name, f(l1.model())));
            }
        } else {
            assert(l2.model() == l1.model());
            assert(l2.name@ == l1.name@);
            if m1.dom().contains(name) {
                assert(records_map(s1).dom().contains(name));
                assert(records_map(s1)[name] == m1[name]);
                assert(records_map(s2) =~= m1.insert(name, f(m1[name])).insert(
                    l1.name@,
                    l1.model(),
                ));
                assert(records_map(s2) =~= records_map(s1).insert(name, f(m1[name])));
            } else {
                assert(!records_map(s1).dom().contains(name));
                assert(records_map(s2) =~= records_map(s1));
            }
        }
    }
}

/// A container model with its raw status replaced.
pub open spec fn spec_with_status(c: ContainerModel, raw_status: Seq<char>) -> ContainerModel {
    ContainerModel { status: raw_status, ..c }
}

/// A container model with one more observed log line.
pub open spec fn spec_with_log(c: ContainerModel, line: LogLineModel) -> ContainerModel {
    ContainerModel { logs: c.logs.push(line), ..c }
}

/// An in-memory container engine: a complete, verified implementation of
/// [`ContainerAPIClient`] that keeps its containers in a plain list.
///
/// It backs the test suite, where it stands in for a real engine, and
/// offers two extra levers no real engine would ([`Self::set_container_status`],
/// [`Self::append_container_log`]) so tests can drive a container through
/// its lifecycle.
pub struct InMemoryContainerAPIClient {
    containers: Vec<ContainerRecord>,
}

impl InMemoryContainerAPIClient {
    /// An engine holding no containers.
    pub fn new() -> (r: InMemoryContainerAPIClient)
        ensures
            r.containers() == Map::<Seq<char>, ContainerModel>::empty(),
    {
        let client = InMemoryContainerAPIClient { containers: Vec::new() };
        proof {
            assert(client.containers@ =~= Seq::<ContainerRecord>::empty());
        }
        client
    }

    /// How many containers the engine holds.
    pub closed spec fn spec_container_count(&self) -> nat {
        self.containers@.len()
    }

    /// How many containers the engine holds.
    pub fn container_count(&self) -> (r: usize)
        ensures
            r == self.spec_container_count(),
    {
        self.containers.len()
    }

    /// Index of the last record carrying the given name, if any.
    fn find_last(&self, container_name: &String) -> (r: Option<usize>)
        ensures
            match r {
                Some(i) => 0 <= i < self.containers@.len() && self.containers@[i as int].name@
                    == container_name@ && forall|j: int|
                    i < j < self.containers@.len() ==> (#[trigger] self.containers@[j]).name@
                        != container_name@,
                None => forall|j: int|
                    0 <= j < self.containers@.len() ==> (#[trigger] self.containers@[j]).name@
                        != container_name@,
            },
    {
        let mut i = self.containers.len();
        while i > 0
            invariant
                0 <= i <= self.containers@.len(),
                forall|j: int|
                    i <= j < self.containers@.len() ==> (#[trigger] self.containers@[j]).name@
                        != container_name@,
            decreases i,
        {
            i -= 1;
            if self.containers[i].name.eq(container_name) {
                return Some(i);
            }
        }
        None
    }

    /// Replace the raw status of every record carrying the given name.
    fn update_status_all(&mut self, container_name: &String, raw_status: &str)
        ensures
            old(self).containers().dom().contains(container_name@) ==> final(self).containers()
                == old(self).containers().insert(
                container_name@,
                spec_with_status(old(self).containers()[container_name@], raw_status@),
            ),
            !old(self).containers().dom().contains(container_name@) ==> final(self).containers()
                == old(self).containers(),
    {
        let ghost orig = self.containers@;
        let mut j: usize = 0;
        while j < self.containers.len()
            invariant
                0 <= j <= orig.len(),
                self.containers@.len() == orig.len(),
                forall|t: int|
                    0 <= t < orig.len() ==> (#[trigger] self.containers@[t]).name@
                        == orig[t].name@,
                forall|t: int|
                    0 <= t < j ==> (#[trigger] self.containers@[t]).model() == if orig[t].name@
                        == container_name@ {
                        spec_with_status(orig[t].model(), raw_status@)
                    } else {
                        orig[t].model()
                    },
                forall|t: int| j <= t < orig.len() ==> (#[trigger] self.containers@[t]) == orig[t],
            decreases orig.len() - j,
        {
            if self.containers[j].name.eq(container_name) {
                self.containers[j].status = raw_status.to_owned();
            }
            j += 1;
        }
        proof {
            lemma_records_map_update(
                orig,
                self.containers@,
                container_name@,
                |c: ContainerModel| spec_with_status(c, raw_status@),
            );
        }
    }

    /// Overwrite the raw status of the named container, so a test can move
    /// it through lifecycle states (`exited`, ...) as a real workload
    /// would.
    pub fn set_container_status(&mut self, container_name: &str, raw_status: &str) -> (r: Result<(), VerificationError>)
        ensures
            r is Ok ==> old(self).containers().dom().contains(container_name@) && final(self).containers() == old(self).containers().insert(
                container_name@,
                spec_with_status(old(self).containers()[container_name@], raw_status@),
            ),
            r matches Err(e) ==> e is NotFound && !old(self).containers().dom().contains(
                container_name@,
            ) && final(self).containers() == old(self).containers(),
    {
        let owned = container_name.to_owned();
        proof {
            lemma_records_map_contains(self.containers@, container_name@);
        }
        match self.find_last(&owned) {
            Some(_) => {
                self.update_status_all(&owned, raw_status);
                Ok(())
            },
            None => Err(VerificationError::NotFound { container_name: owned }),
        }
    }

    /// Append one observed output line to the named container, so a test
    /// can emulate a workload writing to stdout or stderr.
    pub fn append_container_log(
        &mut self,
        container_name: &str,
        origin: LogOrigin,
        content: &str,
    ) -> (r: Result<(), VerificationError>)
        ensures
            r is Ok ==> old(self).containers().dom().contains(container_name@) && final(self).containers() == old(self).containers().insert(
                container_name@,
                spec_with_log(
                    old(self).containers()[container_name@],
                    LogLineModel { origin, content: content@ },
                ),
            ),
            r matches Err(e) ==> e is NotFound && !old(self).containers().dom().contains(
                container_name@,
            ) && final(self).containers() == old(self).containers(),
    {
        let owned = container_name.to_owned();
        proof {
            lemma_records_map_contains(self.containers@, container_name@);
        }
        match self.find_last(&owned) {
            Some(_) => {},
            None => {
                return Err(VerificationError::NotFound { container_name: owned });
            },
        }
        let ghost orig = self.containers@;
        let mut j: usize = 0;
        while j < self.containers.len()
            invariant
                0 <= j <= orig.len(),
                self.containers@.len() == orig.len(),
                owned@ == container_name@,
                forall|t: int|
                    0 <= t < orig.len() ==> (#[trigger] self.containers@[t]).name@
                        == orig[t].name@,
                forall|t: int|
                    0 <= t < j ==> (#[trigger] self.containers@[t]).model() == if orig[t].name@
                        == container_name@ {
                        spec_with_log(
                            orig[t].model(),
                            LogLineModel { origin, content: content@ },
                        )
                    } else {
                        orig[t].model()
                    },
                forall|t: int| j <= t < orig.len() ==> (#[trigger] self.containers@[t]) == orig[t],
            decreases orig.len() - j,
        {
            if self.containers[j].name.eq(&owned) {
                let ghost before = self.containers@[j as int].logs.deep_view();
                self.containers[j].logs.push(LogLine::new(origin, content.to_owned()));
                proof {
                    assert(self.containers@[j as int].logs.deep_view() =~= before.push(
                        LogLineModel { origin, content: content@ },
                    ));
                }
            }
            j += 1;
        }
        proof {
            lemma_records_map_update(
                orig,
                self.containers@,
                container_name@,
                |c: ContainerModel| spec_with_log(
                    c,
                    LogLineModel { origin, content: content@ },
                ),
            );
        }
        Ok(())
    }
}

impl ContainerAPIClient for InMemoryContainerAPIClient {
    closed spec fn containers(&self) -> Map<Seq<char>, ContainerModel> {
        records_map(self.containers@)
    }

    fn container_exists(&self, container_name: &str) -> (r: Result<bool, VerificationError>) {
        let owned = container_name.to_owned();
        proof {
            lemma_records_map_contains(self.containers@, container_name@);
        }
        match self.find_last(&owned) {
            Some(_) => Ok(true),
            None => Ok(false),
        }
    }

    fn remove_container(&mut self, container_name: &str) -> (r: Result<(), VerificationError>) {
        let owned = container_name.to_owned();
        let ghost orig = self.containers@;
        let mut source: Vec<ContainerRecord> = Vec::new();
        core::mem::swap(&mut source, &mut self.containers);
        proof {
            assert(source@ =~= orig.take(source@.len() as int));
            assert(self.containers@ =~= Seq::<ContainerRecord>::empty());
            assert(orig.skip(source@.len() as int) =~= Seq::<ContainerRecord>::empty());
            assert(records_map(self.containers@) =~= records_map(
                orig.skip(source@.len() as int),
            ).remove(container_name@));
        }
        while source.len() > 0
            invariant
                owned@ == container_name@,
                source@.len() <= orig.len(),
                source@ == orig.take(source@.len() as int),
                records_map(self.containers@) == records_map(
                    orig.skip(source@.len() as int),
                ).remove(container_name@),
            decreases source.len(),
        {
            let ghost k = source@.len() as int;
            let ghost suffix = orig.skip(k);
            let record = source.pop().unwrap();
            proof {
                assert(record == orig[k - 1]);
                assert(source@ =~= orig.take(k - 1));
                assert(orig.skip(k - 1) =~= seq![record] + suffix);
                lemma_records_map_cons(record, suffix);
            }
            if record.name.eq(&owned) {
                proof {
                    if records_map(suffix).dom().contains(record.name@) {
                        assert(records_map(orig.skip(k - 1)).remove(container_name@)
                            =~= records_map(suffix).remove(container_name@));
                    } else {
                        assert(records_map(orig.skip(k - 1)).remove(container_name@)
                            =~= records_map(suffix).remove(container_name@));
                    }
                }
            } else {
                let ghost kept = self.containers@;
                self.containers.insert(0, record);
                proof {
                    assert(self.containers@ =~= seq![record] + kept);
                    lemma_records_map_cons(record, kept);
                    assert(records_map(kept).dom().contains(record.name@) == records_map(
                        suffix,
                    ).remove(container_name@).dom().contains(record.name@));
                    if records_map(suffix).dom().contains(record.name@) {
                        assert(records_map(orig.skip(k - 1)).remove(container_name@)
                            =~= records_map(self.containers@));
                    } else {
                        assert(records_map(orig.skip(k - 1)).remove(container_name@)
                            =~= records_map(suffix).remove(container_name@).insert(
                            record.name@,
                            record.model(),
                        ));
                        assert(records_map(self.containers@) =~= records_map(kept).insert(
                            record.name@,
                            record.model(),
                        ));
                        assert(records_map(orig.skip(k - 1)).remove(container_name@)
                            =~= records_map(self.containers@));
                    }
                }
            }
        }
        proof {
            assert(orig.skip(0) =~= orig);
        }
        Ok(())
    }

    fn create_container(&mut self, container_name: &str, spec: &ContainerSpec) -> (r: Result<(), VerificationError>) {
        let owned = container_name.to_owned();
        proof {
            lemma_records_map_contains(self.containers@, container_name@);
        }
        match self.find_last(&owned) {
            Some(_) => {
                return Err(
                    VerificationError::Engine {
                        container_name: owned,
                        message: "a container with this name already exists".to_owned(),
                    },
                );
            },
            None => {},
        }
        let mut command: Vec<String> = Vec::new();
        let mut i: usize = 0;
        while i < spec.command.len()
            invariant
                0 <= i <= spec.command@.len(),
                command@.len() == i,
                forall|t: int| 0 <= t < i ==> (#[trigger] command@[t]) == spec.command@[t],
            decreases spec.command@.len() - i,
        {
            command.push(spec.command[i].clone());
            i += 1;
        }
        proof {
            assert(command@ =~= spec.command@);
            assert(command.deep_view() =~= spec.command.deep_view());
        }
        let record = ContainerRecord {
            name: owned,
            image: spec.image.clone(),
            status: "created".to_owned(),
            command,
            logs: Vec::new(),
        };
        let ghost orig = self.containers@;
        self.containers.push(record);
        proof {
            assert(self.containers@.drop_last() =~= orig);
            assert(self.containers@.last() == record);
            assert(record.logs.deep_view() =~= Seq::<LogLineModel>::empty());
            assert(record.model() == spec_created_container(spec@));
        }
        Ok(())
    }

    fn start_container(&mut self, container_name: &str) -> (r: Result<(), VerificationError>) {
        let owned = container_name.to_owned();
        proof {
            lemma_records_map_contains(self.containers@, container_name@);
        }
        match self.find_last(&owned) {
            Some(_) => {},
            None => {
                return Err(VerificationError::NotFound { container_name: owned });
            },
        }
        self.update_status_all(&owned, "running");
        proof {
            assert(spec_with_status(old(self).containers()[container_name@], "running"@)
                == spec_running_container(old(self).containers()[container_name@]));
        }
        Ok(())
    }

    fn inspect_container(&self, container_name: &str) -> (r: Result<InspectedState, VerificationError>) {
        let owned = container_name.to_owned();
        proof {
            lemma_records_map_contains(self.containers@, container_name@);
        }
        match self.find_last(&owned) {
            Some(i) => {
                proof {
                    lemma_records_map_value(self.containers@, container_name@, i as int);
                }
                Ok(
                    InspectedState {
                        docker_image: self.containers[i].image.clone(),
                        raw_status: self.containers[i].status.clone(),
                    },
                )
            },
            None => Err(VerificationError::NotFound { container_name: owned }),
        }
    }

    fn container_logs(&self, container_name: &str) -> (r: Result<Vec<LogLine>, VerificationError>) {
        let owned = container_name.to_owned();
        proof {
            lemma_records_map_contains(self.containers@, container_name@);
        }
        match self.find_last(&owned) {
            Some(i) => {
                proof {
                    lemma_records_map_value(self.containers@, container_name@, i as int);
                }
                let record = &self.containers[i];
                let mut lines: Vec<LogLine> = Vec::new();
                let mut j: usize = 0;
                while j < record.logs.len()
                    invariant
                        0 <= j <= record.logs@.len(),
                        lines@.len() == j,
                        forall|t: int|
                            0 <= t < j ==> (#[trigger] lines@[t])@ == record.logs@[t]@,
                    decreases record.logs@.len() - j,
                {
                    lines.push(record.logs[j].duplicate());
                    j += 1;
                }
                proof {
                    assert(lines.deep_view() =~= record.logs.deep_view());
                }
                Ok(lines)
            },
            None => Err(VerificationError::NotFound { container_name: owned }),
        }
    }
}

} // verus!
