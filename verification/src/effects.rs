//! What calling each function comes to: the events that a success adds to the history,
//! one by one, and what its result then tells; and what a failure can be.
use crate::config::{
    CopyEntry, CopyTarget, SymbolicTarget, TemplateTarget, UnixUser, Variables,
};
use crate::create::{create_copy, create_symlink, create_template};
use crate::delete::{delete_copy, delete_symlink, delete_template};
use crate::deploy::{deploy_rendered, perform_template_deploy};
use crate::difference::{diff_nonempty, Diff};
use crate::error::{Cause, Context, Error};
use crate::filesystem::{Call, Event, FileHash, Filesystem, Reply, TemplateDiff};
use crate::outcomes::{
    brings, copies, deploys, deploys_after, failure_of, law_created_copy, law_created_symlink,
    law_created_template, law_deleted_copy, law_deleted_symlink, law_deleted_template,
    law_deployed_rendering, law_deployed_template, law_difference, law_text_of_a_template,
    law_updated_copy, law_updated_symlink, law_updated_template, makes, plain, rendering_of,
    unchanged, Report,
};
use crate::outside::{owned, parent_of};
use crate::update::{update_copy, update_symlink, update_template};
use handlebars::{Handlebars, RenderError};
use std::path::{Path, PathBuf};
use vstd::prelude::*;

verus! {

/// The event of a call that succeeded and returned nothing.
pub open spec fn done_event<E>(call: Call) -> Event<E> {
    Event { call, reply: Reply::Done }
}

/// A failure is that of the last call that was made, or that of `path` having no
/// directory.
pub open spec fn owed_to<E>(after: Seq<Event<E>>, error: Error<E>, path: PathBuf) -> bool {
    match error.cause {
        Cause::Filesystem(cause) => after.last().reply == Reply::Failed(cause),
        Cause::NoParent => parent_of(path) is None,
        Cause::Render(_) => false,
    }
}

/// Calls that all succeeded, as events of the history.
proof fn lemma_events<E>(
    before: Seq<Event<E>>,
    after: Seq<Event<E>>,
    at: int,
    calls: Seq<Call>,
)
    requires
        before.is_prefix_of(after),
        makes(after.skip(before.len() as int), at, calls, Seq::<Report>::empty(), None),
    ensures
        after.len() == before.len() + at + calls.len(),
        forall|i: int|
            before.len() + at <= i < after.len() ==> #[trigger] after[i] == done_event::<E>(
                calls[i - before.len() - at],
            ),
{
    let run = after.skip(before.len() as int);
    assert forall|i: int| before.len() + at <= i < after.len() implies #[trigger] after[i]
        == done_event::<E>(calls[i - before.len() - at]) by {
        assert(run[i - before.len()] == after[i]);
    }
}

/// Creating a symbolic link. It is made, after its directory, whenever its source exists
/// and nothing is there, whoever it is to belong to. `false` comes only of a missing
/// source, or of something in the way that is not forced out of it, and then nothing is
/// done.
pub proof fn law_create_symlink<F: Filesystem>(
    source: &Path,
    target: &SymbolicTarget,
    fs: &mut F,
    force: bool,
    result: Result<bool, Error<F::Error>>,
)
    requires
        call_ensures(create_symlink::<F>, (source, target, fs, force), result),
    ensures
        ({
            let before = old(fs).history();
            let after = final(fs).history();
            let asked = after[before.len() as int];
            let found = asked.reply->Symlink_0;
            let in_the_way = found is Changed || found is TargetNotSymlink;
            let linked = done_event(
                Call::MakeSymlink {
                    link: target.target,
                    source: owned(source),
                    owner: target.owner,
                },
            );
            &&& before.is_prefix_of(after)
            &&& before.len() < after.len()
            &&& asked.call == Call::CompareSymlink { source: owned(source), link: target.target }
            &&& result matches Ok(kept) ==> {
                &&& asked.reply is Symlink
                &&& kept == !(found is OnlyTargetExists || found is BothMissing || (in_the_way
                    && !force))
                &&& !kept || found is Identical ==> after == before.push(asked)
                &&& found is OnlySourceExists ==> {
                    &&& parent_of(target.target) matches Some(directory)
                    &&& after == before + seq![
                        asked,
                        done_event(Call::CreateDirAll { path: directory, owner: target.owner }),
                        linked,
                    ]
                }
                &&& in_the_way && force ==> after == before + seq![
                    asked,
                    done_event(Call::RemoveFile { path: target.target }),
                    linked,
                ]
            }
            &&& result matches Err(error) ==> owed_to(after, error, target.target)
        }),
{
    let before = old(fs).history();
    let after = final(fs).history();
    let run = after.skip(before.len() as int);
    law_created_symlink(owned(source), *target, force, run, result);
    let asked = after[before.len() as int];
    assert(run[0] == asked);
    assert(run.last() == after.last());
    if result is Ok {
        let linking = Call::MakeSymlink {
            link: target.target,
            source: owned(source),
            owner: target.owner,
        };
        if run.len() == 1 {
            assert(after =~= before.push(asked));
        } else {
            let first = if asked.reply->Symlink_0 is OnlySourceExists {
                Call::CreateDirAll { path: parent_of(target.target)->0, owner: target.owner }
            } else {
                Call::RemoveFile { path: target.target }
            };
            lemma_events(before, after, 1, seq![first, linking]);
            assert(after =~= before + seq![asked, done_event(first), done_event(linking)]);
        }
    }
}

/// Updating a symbolic link. It is made again, after its directory, whenever it is missing
/// and its source exists, whoever it is to belong to. `false` comes only of a missing
/// source, or of something in the way that is not forced out of it, and then nothing is
/// done.
pub proof fn law_update_symlink<F: Filesystem>(
    source: &Path,
    target: &SymbolicTarget,
    fs: &mut F,
    force: bool,
    result: Result<bool, Error<F::Error>>,
)
    requires
        call_ensures(update_symlink::<F>, (source, target, fs, force), result),
    ensures
        ({
            let before = old(fs).history();
            let after = final(fs).history();
            let asked = after[before.len() as int];
            let found = asked.reply->Symlink_0;
            let in_the_way = found is Changed || found is TargetNotSymlink;
            let linked = done_event(
                Call::MakeSymlink {
                    link: target.target,
                    source: owned(source),
                    owner: target.owner,
                },
            );
            &&& before.is_prefix_of(after)
            &&& before.len() < after.len()
            &&& asked.call == Call::CompareSymlink { source: owned(source), link: target.target }
            &&& result matches Ok(kept) ==> {
                &&& asked.reply is Symlink
                &&& kept == !(found is OnlyTargetExists || found is BothMissing || (in_the_way
                    && !force))
                &&& !kept || found is Identical ==> after == before.push(asked)
                &&& found is OnlySourceExists ==> {
                    &&& parent_of(target.target) matches Some(directory)
                    &&& after == before + seq![
                        asked,
                        done_event(Call::CreateDirAll { path: directory, owner: target.owner }),
                        linked,
                    ]
                }
                &&& in_the_way && force ==> after == before + seq![
                    asked,
                    done_event(Call::RemoveFile { path: target.target }),
                    linked,
                ]
            }
            &&& result matches Err(error) ==> owed_to(after, error, target.target)
        }),
{
    let before = old(fs).history();
    let after = final(fs).history();
    let run = after.skip(before.len() as int);
    law_updated_symlink(owned(source), *target, force, run, result);
    let asked = after[before.len() as int];
    assert(run[0] == asked);
    assert(run.last() == after.last());
    if result is Ok {
        let linking = Call::MakeSymlink {
            link: target.target,
            source: owned(source),
            owner: target.owner,
        };
        if run.len() == 1 {
            assert(after =~= before.push(asked));
        } else {
            let first = if asked.reply->Symlink_0 is OnlySourceExists {
                Call::CreateDirAll { path: parent_of(target.target)->0, owner: target.owner }
            } else {
                Call::RemoveFile { path: target.target }
            };
            lemma_events(before, after, 1, seq![first, linking]);
            assert(after =~= before + seq![asked, done_event(first), done_event(linking)]);
        }
    }
}

/// Deleting a symbolic link. It is removed, with the directories that this leaves empty,
/// whenever it leads to its source or to nothing, and whenever something else that is
/// there is forced out. `false` comes only of something else that is not.
pub proof fn law_delete_symlink<F: Filesystem>(
    source: &Path,
    target: &Path,
    fs: &mut F,
    force: bool,
    result: Result<bool, Error<F::Error>>,
)
    requires
        call_ensures(delete_symlink::<F>, (source, target, fs, force), result),
    ensures
        ({
            let before = old(fs).history();
            let after = final(fs).history();
            let asked = after[before.len() as int];
            let found = asked.reply->Symlink_0;
            let gone = found is OnlySourceExists || found is BothMissing;
            let in_the_way = found is Changed || found is TargetNotSymlink;
            &&& before.is_prefix_of(after)
            &&& before.len() < after.len()
            &&& asked.call == Call::CompareSymlink { source: owned(source), link: owned(target) }
            &&& result matches Ok(forget) ==> {
                &&& asked.reply is Symlink
                &&& forget == !(in_the_way && !force)
                &&& !forget || gone ==> after == before.push(asked)
                &&& forget && !gone ==> after == before + seq![
                    asked,
                    done_event(Call::RemoveFile { path: owned(target) }),
                    done_event(Call::DeleteParents { path: owned(target), no_ask: false }),
                ]
            }
            &&& result matches Err(error) ==> error.cause is Filesystem && after.last().reply
                == Reply::Failed(error.cause->Filesystem_0)
        }),
{
    let before = old(fs).history();
    let after = final(fs).history();
    let run = after.skip(before.len() as int);
    law_deleted_symlink(owned(source), owned(target), force, run, result);
    let asked = after[before.len() as int];
    assert(run[0] == asked);
    assert(run.last() == after.last());
    if result is Ok {
        if run.len() == 1 {
            assert(after =~= before.push(asked));
        } else {
            let removal = Call::RemoveFile { path: owned(target) };
            let pruning = Call::DeleteParents { path: owned(target), no_ask: false };
            lemma_events(before, after, 1, seq![removal, pruning]);
            assert(after =~= before + seq![asked, done_event(removal), done_event(pruning)]);
        }
    }
}

/// Deleting a template. The cached file and then the target are removed, each with the
/// directories that this leaves empty, whenever the target is as it was deployed and
/// whenever it is forced; where only the cached file is left, that is removed. `false`
/// comes only of a missing cached file, or of a target that is not as it was deployed
/// and not forced.
pub proof fn law_delete_template<F: Filesystem>(
    source: &Path,
    cache: &Path,
    target: &Path,
    fs: &mut F,
    force: bool,
    result: Result<bool, Error<F::Error>>,
)
    requires
        call_ensures(delete_template::<F>, (source, cache, target, fs, force), result),
    ensures
        ({
            let before = old(fs).history();
            let after = final(fs).history();
            let asked = after[before.len() as int];
            let found = asked.reply->Template_0;
            let uncached = found is OnlyTargetExists || found is BothMissing;
            let in_the_way = found is Changed || found is TargetNotRegularFile;
            let removed = done_event(Call::RemoveFile { path: owned(cache) });
            let pruned = done_event(Call::DeleteParents { path: owned(cache), no_ask: true });
            &&& before.is_prefix_of(after)
            &&& before.len() < after.len()
            &&& asked.call == Call::CompareTemplate { target: owned(target), cache: owned(cache) }
            &&& result matches Ok(forget) ==> {
                &&& asked.reply is Template
                &&& forget == !(uncached || (in_the_way && !force))
                &&& !forget ==> after == before.push(asked)
                &&& found is OnlyCacheExists ==> after == before + seq![asked, removed, pruned]
                &&& forget && !(found is OnlyCacheExists) ==> after == before + seq![
                    asked,
                    removed,
                    pruned,
                    done_event(Call::RemoveFile { path: owned(target) }),
                    done_event(Call::DeleteParents { path: owned(target), no_ask: false }),
                ]
            }
            &&& result matches Err(error) ==> error.cause is Filesystem && after.last().reply
                == Reply::Failed(error.cause->Filesystem_0)
        }),
{
    let before = old(fs).history();
    let after = final(fs).history();
    let run = after.skip(before.len() as int);
    law_deleted_template(owned(cache), owned(target), force, run, result);
    let asked = after[before.len() as int];
    assert(run[0] == asked);
    assert(run.last() == after.last());
    if result is Ok {
        let removal = Call::RemoveFile { path: owned(cache) };
        let pruning = Call::DeleteParents { path: owned(cache), no_ask: true };
        if run.len() == 1 {
            assert(after =~= before.push(asked));
        } else if asked.reply->Template_0 is OnlyCacheExists {
            lemma_events(before, after, 1, seq![removal, pruning]);
            assert(after =~= before + seq![asked, done_event(removal), done_event(pruning)]);
        } else {
            let of_target = Call::RemoveFile { path: owned(target) };
            let above_target = Call::DeleteParents { path: owned(target), no_ask: false };
            lemma_events(before, after, 1, seq![removal, pruning, of_target, above_target]);
            assert(after =~= before + seq![
                asked,
                done_event(removal),
                done_event(pruning),
                done_event(of_target),
                done_event(above_target),
            ]);
        }
    }
}

/// Deleting a copy. It is removed, with the directories that this leaves empty, whenever
/// it has the checksum that its entry tells, and whenever it is there and forced.
/// `false` comes only of a copy that is there, not as its entry tells, and not forced.
pub proof fn law_delete_copy<F: Filesystem>(
    source: &Path,
    cached: &CopyEntry,
    fs: &mut F,
    force: bool,
    result: Result<bool, Error<F::Error>>,
)
    requires
        call_ensures(delete_copy::<F>, (source, cached, fs, force), result),
    ensures
        ({
            let before = old(fs).history();
            let after = final(fs).history();
            let asked = after[before.len() as int];
            let found = asked.reply->Hash_0;
            let gone = found is NotPresent;
            &&& before.is_prefix_of(after)
            &&& before.len() < after.len()
            &&& asked.call == Call::ChecksumFile { path: cached.target }
            &&& result matches Ok(forget) ==> {
                &&& asked.reply is Hash
                &&& forget == (gone || force || found == FileHash::Hash(cached.target_checksum))
                &&& !forget || gone ==> after == before.push(asked)
                &&& forget && !gone ==> after == before + seq![
                    asked,
                    done_event(Call::RemoveFile { path: cached.target }),
                    done_event(Call::DeleteParents { path: cached.target, no_ask: false }),
                ]
            }
            &&& result matches Err(error) ==> error.cause is Filesystem && after.last().reply
                == Reply::Failed(error.cause->Filesystem_0)
        }),
{
    let before = old(fs).history();
    let after = final(fs).history();
    let run = after.skip(before.len() as int);
    law_deleted_copy(*cached, force, run, result);
    let asked = after[before.len() as int];
    assert(run[0] == asked);
    assert(run.last() == after.last());
    if result is Ok {
        if run.len() == 1 {
            assert(after =~= before.push(asked));
        } else {
            let removal = Call::RemoveFile { path: cached.target };
            let pruning = Call::DeleteParents { path: cached.target, no_ask: false };
            lemma_events(before, after, 1, seq![removal, pruning]);
            assert(after =~= before + seq![asked, done_event(removal), done_event(pruning)]);
        }
    }
}

/// The events of copying `source` to `path`, after its directory has been created.
pub open spec fn copying<E>(
    source: PathBuf,
    directory: PathBuf,
    path: PathBuf,
    owner: Option<UnixUser>,
) -> Seq<Event<E>> {
    seq![
        done_event(Call::CreateDirAll { path: directory, owner }),
        done_event(Call::CopyFile { source, target: path, owner }),
        done_event(Call::CopyPermissions { source, target: path, owner }),
    ]
}

/// Copying that succeeded, as events of the history.
proof fn lemma_copying<E>(
    before: Seq<Event<E>>,
    after: Seq<Event<E>>,
    first: Seq<Call>,
    source: PathBuf,
    path: PathBuf,
    owner: Option<UnixUser>,
)
    requires
        before.is_prefix_of(after),
        first.len() <= 1,
        copies(
            after.skip(before.len() as int),
            2,
            first,
            Seq::<Report>::empty(),
            source,
            path,
            owner,
            None,
        ),
    ensures
        parent_of(path) is Some,
        ({
            let n = before.len() as int;
            let copied = copying::<E>(source, parent_of(path)->0, path, owner);
            if first.len() == 0 {
                after == before + seq![after[n], after[n + 1]] + copied
            } else {
                after == before + seq![after[n], after[n + 1], done_event(first[0])] + copied
            }
        }),
{
    let n = before.len() as int;
    let directory = parent_of(path)->0;
    let calls = first + seq![
        Call::CreateDirAll { path: directory, owner },
        Call::CopyFile { source, target: path, owner },
        Call::CopyPermissions { source, target: path, owner },
    ];
    lemma_events(before, after, 2, calls);
    let copied = copying::<E>(source, directory, path, owner);
    if first.len() == 0 {
        assert(after =~= before + seq![after[n], after[n + 1]] + copied);
    } else {
        assert(after =~= before + seq![after[n], after[n + 1], done_event(first[0])] + copied);
    }
}

/// Creating a copy. It is made whenever its source has a checksum and nothing is there,
/// whoever it is to belong to, and whenever it is forced, what is there being removed
/// first. `None` comes only of a source without a checksum, or of another file in the
/// way that is not forced out of it, and then nothing is done. The entry tells the path
/// and the checksum of the source, twice.
pub proof fn law_create_copy<F: Filesystem>(
    source: &Path,
    target: &CopyTarget,
    fs: &mut F,
    force: bool,
    result: Result<Option<CopyEntry>, Error<F::Error>>,
)
    requires
        call_ensures(create_copy::<F>, (source, target, fs, force), result),
    ensures
        ({
            let before = old(fs).history();
            let after = final(fs).history();
            let asked = after[before.len() as int];
            let then_asked = after[before.len() as int + 1];
            let sound = asked.reply->Hash_0 is Hash;
            let hash = asked.reply->Hash_0->Hash_0;
            let found = then_asked.reply->Hash_0;
            let other = !(found is NotPresent) && found != FileHash::Hash(hash);
            let copied = copying::<F::Error>(
                owned(source),
                parent_of(target.target)->0,
                target.target,
                target.owner,
            );
            &&& before.is_prefix_of(after)
            &&& before.len() < after.len()
            &&& asked.call == Call::ChecksumFile { path: owned(source) }
            &&& result matches Ok(kept) ==> {
                &&& asked.reply is Hash
                &&& kept is None <==> !sound || (other && !force)
                &&& !sound ==> after == before.push(asked)
                &&& sound ==> before.len() + 1 < after.len() && then_asked.reply is Hash
                    && then_asked.call == Call::ChecksumFile { path: target.target }
                &&& sound && (found == FileHash::Hash(hash) || kept is None) ==> after == before
                    + seq![asked, then_asked]
                &&& sound && found is NotPresent ==> parent_of(target.target) is Some && after
                    == before + seq![asked, then_asked] + copied
                &&& sound && other && force ==> parent_of(target.target) is Some && after == before
                    + seq![
                    asked,
                    then_asked,
                    done_event(Call::RemoveFile { path: target.target }),
                ] + copied
                &&& kept matches Some(entry) ==> entry.target == target.target
                    && entry.source_checksum == hash && entry.target_checksum == hash
            }
            &&& result matches Err(error) ==> owed_to(after, error, target.target)
        }),
{
    let before = old(fs).history();
    let after = final(fs).history();
    let run = after.skip(before.len() as int);
    law_created_copy(owned(source), *target, force, run, result);
    let asked = after[before.len() as int];
    assert(run[0] == asked);
    assert(run.last() == after.last());
    if run.len() > 1 {
        assert(run[1] == after[before.len() as int + 1]);
    }
    if result is Ok {
        if run.len() == 1 {
            assert(after =~= before.push(asked));
        } else if run.len() == 2 {
            assert(after =~= before + seq![asked, after[before.len() as int + 1]]);
        } else if run[1].reply->Hash_0 is NotPresent {
            lemma_copying(
                before,
                after,
                seq![],
                owned(source),
                target.target,
                target.owner,
            );
        } else {
            lemma_copying(
                before,
                after,
                seq![Call::RemoveFile { path: target.target }],
                owned(source),
                target.target,
                target.owner,
            );
        }
    }
}

/// Updating a copy whose source has a checksum. One that is missing is made again,
/// whatever its entry tells; one that is as its entry tells is made again exactly if the
/// source has changed, and otherwise given its owner and permissions; one that is
/// neither is made again exactly if that is forced. `None` comes only of this last one,
/// or of a source without a checksum, and then nothing is done. The entry tells the path
/// and the checksum of the source, and the same for a copy that was made or the one
/// that was found for one that was not.
pub proof fn law_update_copy<F: Filesystem>(
    source: &Path,
    target: &CopyTarget,
    cached: &CopyEntry,
    fs: &mut F,
    force: bool,
    result: Result<Option<CopyEntry>, Error<F::Error>>,
)
    requires
        call_ensures(update_copy::<F>, (source, target, cached, fs, force), result),
    ensures
        ({
            let before = old(fs).history();
            let after = final(fs).history();
            let asked = after[before.len() as int];
            let then_asked = after[before.len() as int + 1];
            let sound = asked.reply->Hash_0 is Hash;
            let hash = asked.reply->Hash_0->Hash_0;
            let found = then_asked.reply->Hash_0;
            let as_told = found == FileHash::Hash(cached.target_checksum);
            let current = as_told && hash == cached.source_checksum;
            let removed = done_event(Call::RemoveFile { path: cached.target });
            let copied = copying::<F::Error>(
                owned(source),
                parent_of(cached.target)->0,
                cached.target,
                target.owner,
            );
            &&& before.is_prefix_of(after)
            &&& before.len() < after.len()
            &&& asked.call == Call::ChecksumFile { path: owned(source) }
            &&& result matches Ok(kept) ==> {
                &&& asked.reply is Hash
                &&& kept is None <==> !sound || (!as_told && !(found is NotPresent) && !force)
                &&& !sound ==> after == before.push(asked)
                &&& sound ==> before.len() + 1 < after.len() && then_asked.reply is Hash
                    && then_asked.call == Call::ChecksumFile { path: cached.target }
                &&& sound && kept is None ==> after == before + seq![asked, then_asked]
                &&& sound && kept is Some && !current ==> parent_of(cached.target) is Some && after
                    == if found is NotPresent {
                    before + seq![asked, then_asked] + copied
                } else {
                    before + seq![asked, then_asked, removed] + copied
                }
                &&& sound && current ==> after == before + seq![
                    asked,
                    then_asked,
                    done_event(Call::SetOwner { path: cached.target, owner: target.owner }),
                    done_event(
                        Call::CopyPermissions {
                            source: owned(source),
                            target: cached.target,
                            owner: target.owner,
                        },
                    ),
                ]
                &&& kept matches Some(entry) ==> entry.target == cached.target
                    && entry.source_checksum == hash && entry.target_checksum == if current {
                    cached.target_checksum
                } else {
                    hash
                }
            }
            &&& result matches Err(error) ==> owed_to(after, error, cached.target)
        }),
{
    let before = old(fs).history();
    let after = final(fs).history();
    let run = after.skip(before.len() as int);
    law_updated_copy(owned(source), *target, *cached, force, run, result);
    let asked = after[before.len() as int];
    assert(run[0] == asked);
    assert(run.last() == after.last());
    if run.len() > 1 {
        assert(run[1] == after[before.len() as int + 1]);
    }
    if result is Ok {
        if run.len() == 1 {
            assert(after =~= before.push(asked));
        } else if run.len() == 2 {
            assert(after =~= before + seq![asked, after[before.len() as int + 1]]);
        } else if run.len() == 4 {
            let owning = Call::SetOwner { path: cached.target, owner: target.owner };
            let permitting = Call::CopyPermissions {
                source: owned(source),
                target: cached.target,
                owner: target.owner,
            };
            lemma_events(before, after, 2, seq![owning, permitting]);
            assert(after =~= before + seq![
                asked,
                after[before.len() as int + 1],
                done_event(owning),
                done_event(permitting),
            ]);
        } else if run[1].reply->Hash_0 is NotPresent {
            lemma_copying(
                before,
                after,
                seq![],
                owned(source),
                cached.target,
                target.owner,
            );
        } else {
            lemma_copying(
                before,
                after,
                seq![Call::RemoveFile { path: cached.target }],
                owned(source),
                cached.target,
                target.owner,
            );
        }
    }
}

/// The events of reading a template, writing what it was rendered to into the cache, after
/// the directory of the cache has been created, and bringing it from there to the target,
/// if there is one.
pub open spec fn deployment<E>(
    source: PathBuf,
    cache: PathBuf,
    target: Option<&TemplateTarget>,
    contents: String,
    rendered: String,
) -> Seq<Event<E>> {
    let cached = seq![
        Event { call: Call::ReadToString { path: source }, reply: Reply::Text(contents) },
        done_event(Call::CreateDirAll { path: parent_of(cache)->0, owner: None }),
        done_event(Call::Write { path: cache, content: rendered }),
    ];
    match target {
        Some(target) => cached + seq![
            done_event(
                Call::CopyFile { source: cache, target: target.target, owner: target.owner },
            ),
            done_event(
                Call::CopyPermissions { source, target: target.target, owner: target.owner },
            ),
        ],
        None => cached,
    }
}

/// `after` is `before` and the deployment of a template: what was written is what the whole
/// contents of the source, with what is put around them, were rendered to.
pub open spec fn ends_deployed<E>(
    before: Seq<Event<E>>,
    after: Seq<Event<E>>,
    source: PathBuf,
    cache: PathBuf,
    target: Option<&TemplateTarget>,
    handlebars: Handlebars<'_>,
    variables: Variables,
) -> bool {
    &&& parent_of(cache) is Some
    &&& exists|contents: String, rendered: String|
        #![trigger deployment::<E>(source, cache, target, contents, rendered)]
        rendering_of(target, handlebars, variables, contents@, Ok(rendered)) && after == before
            + deployment::<E>(source, cache, target, contents, rendered)
}

/// A failure is that of the last call that was made, that of a missing directory, or that
/// of rendering what was read last.
pub open spec fn owed_to_template<E>(
    after: Seq<Event<E>>,
    error: Error<E>,
    cache: PathBuf,
    target: Option<&TemplateTarget>,
    handlebars: Handlebars<'_>,
    variables: Variables,
) -> bool {
    match error.cause {
        Cause::Filesystem(cause) => after.last().reply == Reply::Failed(cause),
        Cause::NoParent => parent_of(cache) is None || (target matches Some(target) && parent_of(
            target.target,
        ) is None),
        Cause::Render(cause) => after.last().reply matches Reply::Text(contents)
            && rendering_of(target, handlebars, variables, contents@, Err(cause)),
    }
}

/// A deployment in the history.
proof fn lemma_deployment<E>(
    before: Seq<Event<E>>,
    after: Seq<Event<E>>,
    at: int,
    source: PathBuf,
    cache: PathBuf,
    target: Option<&TemplateTarget>,
    handlebars: Handlebars<'_>,
    variables: Variables,
    task: Option<Context>,
    failure: Option<Error<E>>,
)
    requires
        before.is_prefix_of(after),
        deploys(
            source,
            cache,
            target,
            handlebars,
            variables,
            after.skip(before.len() as int),
            at,
            task,
            failure,
        ),
    ensures
        failure is None ==> ends_deployed(
            after.take(before.len() + at),
            after,
            source,
            cache,
            target,
            handlebars,
            variables,
        ),
        failure matches Some(error) ==> owed_to_template(
            after,
            error,
            cache,
            target,
            handlebars,
            variables,
        ),
        before.len() + at < after.len(),
{
    let run = after.skip(before.len() as int);
    let start = before.len() + at;
    assert(run[at] == after[start]);
    assert(run.last() == after.last());
    if let Reply::Text(contents) = run[at].reply {
        let outcome = choose|outcome: Result<String, RenderError>| #[trigger]
            rendering_of(target, handlebars, variables, contents@, outcome) && brings(
                source,
                cache,
                target,
                outcome,
                run,
                at + 1,
                task,
                failure,
            );
        if let Ok(rendered) = outcome {
            if failure is None {
                let cached = seq![
                    Call::CreateDirAll { path: parent_of(cache)->0, owner: None },
                    Call::Write { path: cache, content: rendered },
                ];
                let calls = match target {
                    Some(target) => cached + seq![
                        Call::CopyFile {
                            source: cache,
                            target: target.target,
                            owner: target.owner,
                        },
                        Call::CopyPermissions {
                            source,
                            target: target.target,
                            owner: target.owner,
                        },
                    ],
                    None => cached,
                };
                lemma_events(before, after, at + 1, calls);
                assert(after =~= after.take(start) + deployment::<E>(
                    source,
                    cache,
                    target,
                    contents,
                    rendered,
                ));
            }
        }
    }
}

/// A deployment after other calls, in the history.
proof fn lemma_deployment_after<E>(
    before: Seq<Event<E>>,
    after: Seq<Event<E>>,
    at: int,
    first: Seq<Call>,
    reports: Seq<Report>,
    source: PathBuf,
    cache: PathBuf,
    target: TemplateTarget,
    handlebars: Handlebars<'_>,
    variables: Variables,
    failure: Option<Error<E>>,
)
    requires
        before.is_prefix_of(after),
        0 <= at,
        deploys_after(
            first,
            reports,
            source,
            cache,
            target,
            handlebars,
            variables,
            after.skip(before.len() as int),
            at,
            failure,
        ),
    ensures
        failure is None ==> {
            let start = before.len() + at + first.len();
            &&& start < after.len()
            &&& forall|i: int|
                before.len() + at <= i < start ==> #[trigger] after[i] == done_event::<E>(
                    first[i - before.len() - at],
                )
            &&& ends_deployed(
                after.take(start),
                after,
                source,
                cache,
                Some(&target),
                handlebars,
                variables,
            )
        },
        failure matches Some(error) ==> owed_to_template(
            after,
            error,
            cache,
            Some(&target),
            handlebars,
            variables,
        ),
{
    let run = after.skip(before.len() as int);
    assert(run.last() == after.last());
    if !(failure is Some && makes(run, at, first, reports, failure)) {
        lemma_deployment(
            before,
            after,
            at + first.len(),
            source,
            cache,
            Some(&target),
            handlebars,
            variables,
            Some(Context::PerformTemplateCache),
            failure,
        );
        assert forall|i: int|
            before.len() + at <= i < before.len() + at + first.len() implies #[trigger] after[i]
            == done_event::<E>(first[i - before.len() - at]) by {
            assert(run[i - before.len()] == after[i]);
        }
    }
}

/// Deploying a template. What was rendered is written to the cache and, if there is a
/// target, copied from there; without a target nothing but the cache is touched.
pub proof fn law_perform_template_deploy<F: Filesystem>(
    source: &Path,
    cache: &Path,
    target: Option<&TemplateTarget>,
    fs: &mut F,
    handlebars: &Handlebars<'_>,
    variables: &Variables,
    result: Result<(), Error<F::Error>>,
)
    requires
        call_ensures(
            perform_template_deploy::<F>,
            (source, cache, target, fs, handlebars, variables),
            result,
        ),
    ensures
        ({
            let before = old(fs).history();
            let after = final(fs).history();
            &&& before.is_prefix_of(after)
            &&& before.len() < after.len()
            &&& after[before.len() as int].call == Call::ReadToString { path: owned(source) }
            &&& result is Ok ==> ends_deployed(
                before,
                after,
                owned(source),
                owned(cache),
                target,
                *handlebars,
                *variables,
            )
            &&& result matches Err(error) ==> error.task is None && owed_to_template(
                after,
                error,
                owned(cache),
                target,
                *handlebars,
                *variables,
            )
        }),
{
    let before = old(fs).history();
    let after = final(fs).history();
    let run = after.skip(before.len() as int);
    law_deployed_template(
        owned(source),
        owned(cache),
        target,
        *handlebars,
        *variables,
        run,
        result,
    );
    assert(run[0] == after[before.len() as int]);
    lemma_deployment(
        before,
        after,
        0,
        owned(source),
        owned(cache),
        target,
        *handlebars,
        *variables,
        None,
        failure_of(result),
    );
    assert(after.take(before.len() as int) =~= before);
}

/// Deploying what rendering came back with. What was rendered is written to the cache
/// and, if there is a target, copied from there; what could not be rendered changes
/// nothing and is what is reported.
pub proof fn law_deploy_rendered<F: Filesystem>(
    source: &Path,
    cache: &Path,
    target: Option<&TemplateTarget>,
    outcome: Result<String, RenderError>,
    fs: &mut F,
    result: Result<(), Error<F::Error>>,
)
    requires
        call_ensures(deploy_rendered::<F>, (source, cache, target, outcome, fs), result),
    ensures
        ({
            let before = old(fs).history();
            let after = final(fs).history();
            &&& before.is_prefix_of(after)
            &&& result is Ok ==> {
                &&& outcome matches Ok(rendered)
                &&& parent_of(owned(cache)) matches Some(directory)
                &&& after == before + seq![
                    done_event(Call::CreateDirAll { path: directory, owner: None }),
                    done_event(Call::Write { path: owned(cache), content: rendered }),
                ] + match target {
                    Some(target) => seq![
                        done_event(
                            Call::CopyFile {
                                source: owned(cache),
                                target: target.target,
                                owner: target.owner,
                            },
                        ),
                        done_event(
                            Call::CopyPermissions {
                                source: owned(source),
                                target: target.target,
                                owner: target.owner,
                            },
                        ),
                    ],
                    None => seq![],
                }
            }
            &&& outcome matches Err(cause) ==> after == before && (result matches Err(error)
                && error.cause == Cause::<F::Error>::Render(cause))
            &&& outcome is Ok ==> (result matches Err(error) ==> owed_to(
                after,
                error,
                owned(cache),
            ))
        }),
{
    let before = old(fs).history();
    let after = final(fs).history();
    let run = after.skip(before.len() as int);
    law_deployed_rendering(owned(source), owned(cache), target, outcome, run, result);
    if let Ok(rendered) = outcome {
        if result is Ok {
            let cached = seq![
                Call::CreateDirAll { path: parent_of(owned(cache))->0, owner: None },
                Call::Write { path: owned(cache), content: rendered },
            ];
            if let Some(target) = target {
                let calls = cached + seq![
                    Call::CopyFile {
                        source: owned(cache),
                        target: target.target,
                        owner: target.owner,
                    },
                    Call::CopyPermissions {
                        source: owned(source),
                        target: target.target,
                        owner: target.owner,
                    },
                ];
                lemma_events(before, after, 0, calls);
                assert(after =~= before + seq![done_event(calls[0]), done_event(calls[1])] + seq![
                    done_event(calls[2]),
                    done_event(calls[3]),
                ]);
            } else {
                lemma_events(before, after, 0, cached);
                assert(after =~= before + seq![done_event(cached[0]), done_event(cached[1])]
                    + seq![]);
            }
        } else if run.len() > 0 {
            assert(run.last() == after.last());
        }
    } else {
        assert(after =~= before);
    }
}

/// Creating a template. It is deployed, into the directory of its target, whenever there
/// is no target or one that is as it was cached, whoever it is to belong to and whatever
/// is put around it, and whenever it is forced, what is there being removed first.
/// `false` comes only of another file in the way that is not forced out of it, and then
/// nothing is done.
pub proof fn law_create_template<F: Filesystem>(
    source: &Path,
    cache: &Path,
    target: &TemplateTarget,
    fs: &mut F,
    handlebars: &Handlebars<'_>,
    variables: &Variables,
    force: bool,
    result: Result<bool, Error<F::Error>>,
)
    requires
        call_ensures(
            create_template::<F>,
            (source, cache, target, fs, handlebars, variables, force),
            result,
        ),
    ensures
        ({
            let before = old(fs).history();
            let after = final(fs).history();
            let asked = after[before.len() as int];
            let found = asked.reply->Template_0;
            let in_the_way = found is OnlyTargetExists || found is Changed
                || found is TargetNotRegularFile;
            let removed = done_event(Call::RemoveFile { path: target.target });
            let above = done_event(
                Call::CreateDirAll { path: parent_of(target.target)->0, owner: target.owner },
            );
            &&& before.is_prefix_of(after)
            &&& before.len() < after.len()
            &&& asked.call == Call::CompareTemplate { target: target.target, cache: owned(cache) }
            &&& result matches Ok(kept) ==> {
                &&& asked.reply is Template
                &&& kept == (!in_the_way || force)
                &&& !kept ==> after == before.push(asked)
                &&& kept ==> parent_of(target.target) is Some && ends_deployed(
                    if in_the_way {
                        before + seq![asked, removed, above]
                    } else {
                        before + seq![asked, above]
                    },
                    after,
                    owned(source),
                    owned(cache),
                    Some(target),
                    *handlebars,
                    *variables,
                )
            }
            &&& result matches Err(error) ==> owed_to_template(
                after,
                error,
                owned(cache),
                Some(target),
                *handlebars,
                *variables,
            )
        }),
{
    let before = old(fs).history();
    let after = final(fs).history();
    let run = after.skip(before.len() as int);
    law_created_template(
        owned(source),
        owned(cache),
        *target,
        *handlebars,
        *variables,
        force,
        run,
        result,
    );
    let asked = after[before.len() as int];
    assert(run[0] == asked);
    assert(run.last() == after.last());
    if let Reply::Template(found) = asked.reply {
        let in_the_way = found is OnlyTargetExists || found is Changed
            || found is TargetNotRegularFile;
        if in_the_way && !force {
            assert(after =~= before.push(asked));
        } else if let Some(directory) = parent_of(target.target) {
            let removal = Call::RemoveFile { path: target.target };
            let creation = Call::CreateDirAll { path: directory, owner: target.owner };
            let first = if in_the_way { seq![removal] } else { seq![] };
            let reports = if in_the_way {
                seq![plain(Context::RemoveExistingFileWhileForcing)]
            } else {
                seq![]
            };
            lemma_deployment_after(
                before,
                after,
                1,
                first.push(creation),
                reports.push(plain(Context::CreateParentForTarget)),
                owned(source),
                owned(cache),
                *target,
                *handlebars,
                *variables,
                failure_of(result),
            );
            if result is Ok {
                if in_the_way {
                    assert(after.take(before.len() as int + 3) =~= before + seq![
                        asked,
                        done_event(removal),
                        done_event(creation),
                    ]);
                } else {
                    assert(after.take(before.len() as int + 2) =~= before + seq![
                        asked,
                        done_event(creation),
                    ]);
                }
            }
        }
    }
}

/// Updating a template. One whose target is as it was deployed is always deployed again,
/// after the change has been shown and the owner set, and so is one whose target is
/// missing, into its directory. Without a cached file nothing is done. A target that has
/// been changed or is no regular file is forced out of the way, after the change has been
/// shown; unforced, `false` comes of one that is no regular file, with nothing done, and
/// of one that differs in some line, with nothing done but showing this to those who want
/// to see it. One that differs in no line is deployed again.
pub proof fn law_update_template<F: TemplateDiff>(
    source: &Path,
    cache: &Path,
    target: &TemplateTarget,
    fs: &mut F,
    handlebars: &Handlebars<'_>,
    variables: &Variables,
    force: bool,
    diff_context_lines: usize,
    result: Result<bool, Error<F::Error>>,
)
    requires
        call_ensures(
            update_template::<F>,
            (source, cache, target, fs, handlebars, variables, force, diff_context_lines),
            result,
        ),
    ensures
        ({
            let before = old(fs).history();
            let after = final(fs).history();
            let n = before.len() as int;
            let asked = after[n];
            let found = asked.reply->Template_0;
            let in_the_way = found is Changed || found is TargetNotRegularFile;
            let shown = done_event(
                Call::PrintTemplateDiff {
                    source: owned(source),
                    template: *target,
                    handlebars: Ghost(*handlebars),
                    variables: Ghost(*variables),
                    context_lines: diff_context_lines,
                },
            );
            let diff = after[n + 1].reply->Difference_0@;
            let same = forall|i: int| 0 <= i < diff.len() ==> #[trigger] diff[i] is Both;
            let deployed_from = |start: Seq<Event<F::Error>>|
                ends_deployed(
                    start,
                    after,
                    owned(source),
                    owned(cache),
                    Some(target),
                    *handlebars,
                    *variables,
                );
            &&& before.is_prefix_of(after)
            &&& n < after.len()
            &&& asked.call == Call::CompareTemplate { target: target.target, cache: owned(cache) }
            &&& result matches Ok(kept) ==> {
                &&& asked.reply is Template
                &&& kept == !(in_the_way && !force && !(found is Changed && same))
                &&& found is Identical ==> deployed_from(
                    before + seq![
                        asked,
                        shown,
                        done_event(Call::SetOwner { path: target.target, owner: target.owner }),
                    ],
                )
                &&& found is OnlyCacheExists ==> {
                    &&& parent_of(target.target) matches Some(directory)
                    &&& deployed_from(
                        before + seq![
                            asked,
                            done_event(
                                Call::CreateDirAll { path: directory, owner: target.owner },
                            ),
                        ],
                    )
                }
                &&& found is OnlyTargetExists || found is BothMissing ==> after == before.push(
                    asked,
                )
                &&& in_the_way && force ==> deployed_from(
                    before + seq![
                        asked,
                        shown,
                        done_event(Call::RemoveFile { path: target.target }),
                    ],
                )
                &&& found is TargetNotRegularFile && !force ==> after == before.push(asked)
                &&& found is Changed && !force ==> {
                    &&& n + 1 < after.len()
                    &&& after[n + 1].reply is Difference
                    &&& after[n + 1].call == Call::GenerateTemplateDiff {
                        source: owned(source),
                        template: *target,
                        handlebars: Ghost(*handlebars),
                        variables: Ghost(*variables),
                        source_to_target: false,
                    }
                    &&& same ==> deployed_from(before + seq![asked, after[n + 1]])
                    &&& !same ==> {
                        &&& n + 2 < after.len()
                        &&& after[n + 2].call == Call::InfoEnabled
                        &&& after[n + 2].reply matches Reply::Enabled(wanted)
                        &&& after == if wanted {
                            before + seq![
                                asked,
                                after[n + 1],
                                after[n + 2],
                                done_event(
                                    Call::PrintDiff {
                                        diff: Ghost(diff),
                                        context_lines: diff_context_lines,
                                    },
                                ),
                            ]
                        } else {
                            before + seq![asked, after[n + 1], after[n + 2]]
                        }
                    }
                }
            }
            &&& result matches Err(error) ==> owed_to_template(
                after,
                error,
                owned(cache),
                Some(target),
                *handlebars,
                *variables,
            )
        }),
{
    let before = old(fs).history();
    let after = final(fs).history();
    let n = before.len() as int;
    let run = after.skip(n);
    law_updated_template(
        owned(source),
        owned(cache),
        *target,
        *handlebars,
        *variables,
        force,
        diff_context_lines,
        run,
        result,
    );
    let asked = after[n];
    assert(run[0] == asked);
    assert(run.last() == after.last());
    if run.len() > 1 {
        assert(run[1] == after[n + 1]);
    }
    if run.len() > 2 {
        assert(run[2] == after[n + 2]);
    }
    if run.len() > 3 {
        assert(run[3] == after[n + 3]);
    }
    if let Reply::Template(found) = asked.reply {
        let in_the_way = found is Changed || found is TargetNotRegularFile;
        if found is Identical || (in_the_way && force) {
            let (call, context) = if found is Identical {
                (
                    Call::SetOwner { path: target.target, owner: target.owner },
                    Context::SetTargetOwner,
                )
            } else {
                (Call::RemoveFile { path: target.target }, Context::RemoveTargetWhileForcing)
            };
            lemma_deployment_after(
                before,
                after,
                2,
                seq![call],
                seq![plain(context)],
                owned(source),
                owned(cache),
                *target,
                *handlebars,
                *variables,
                failure_of(result),
            );
            if result is Ok {
                assert(after.take(n + 3) =~= before + seq![asked, after[n + 1], done_event(call)]);
            }
        } else if found is OnlyCacheExists {
            if let Some(directory) = parent_of(target.target) {
                let creation = Call::CreateDirAll { path: directory, owner: target.owner };
                lemma_deployment_after(
                    before,
                    after,
                    1,
                    seq![].push(creation),
                    seq![].push(plain(Context::CreateParentForTarget)),
                    owned(source),
                    owned(cache),
                    *target,
                    *handlebars,
                    *variables,
                    failure_of(result),
                );
                if result is Ok {
                    assert(after.take(n + 2) =~= before + seq![asked, done_event(creation)]);
                }
            }
        } else if found is Changed {
            if let Reply::Difference(diff) = run[1].reply {
                if unchanged(diff@) {
                    lemma_deployment_after(
                        before,
                        after,
                        2,
                        seq![],
                        seq![],
                        owned(source),
                        owned(cache),
                        *target,
                        *handlebars,
                        *variables,
                        failure_of(result),
                    );
                    if result is Ok {
                        assert(after.take(n + 2) =~= before + seq![asked, after[n + 1]]);
                    }
                } else if run.len() == 4 {
                    assert(after =~= before + seq![
                        asked,
                        after[n + 1],
                        after[n + 2],
                        after[n + 3],
                    ]);
                } else {
                    assert(after =~= before + seq![asked, after[n + 1], after[n + 2]]);
                }
            }
        } else {
            assert(after =~= before.push(asked));
        }
    }
}

/// The text that a template is made of begins with `prepend`, ends with `append` and has
/// the contents, whole, between them.
pub proof fn law_apply_actions(target: &TemplateTarget, contents: String, text: String)
    requires
        call_ensures(TemplateTarget::apply_actions, (target, contents), text),
    ensures
        ({
            let front = if target.prepend is Some { target.prepend->0@.len() as int } else { 0 };
            let back = if target.append is Some { target.append->0@.len() as int } else { 0 };
            &&& text@.len() == front + contents@.len() + back
            &&& text@.subrange(front, front + contents@.len()) == contents@
            &&& target.prepend matches Some(prepend) ==> prepend@.is_prefix_of(text@)
            &&& target.append matches Some(append) ==> append@.is_suffix_of(text@)
            &&& target.prepend is None && target.append is None ==> text@ == contents@
        }),
{
    law_text_of_a_template(*target, contents@, contents@);
    let front = if target.prepend is Some { target.prepend->0@.len() as int } else { 0 };
    if let Some(prepend) = target.prepend {
        assert(text@.subrange(0, front) == prepend@);
        assert(prepend@ =~= text@.subrange(0, prepend@.len() as int));
    }
    if let Some(append) = target.append {
        assert(append@ =~= text@.subrange(text@.len() - append@.len(), text@.len() as int));
    }
}

/// A difference shows a change exactly if some line is not one of both texts.
pub proof fn law_diff_nonempty(diff: &Diff, changed: bool)
    requires
        call_ensures(diff_nonempty, (diff,), changed),
    ensures
        changed <==> exists|i: int| 0 <= i < diff@.len() && !(#[trigger] diff@[i] is Both),
{
    law_difference(diff@, Seq::empty());
}

} // verus!
