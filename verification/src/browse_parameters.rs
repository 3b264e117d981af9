//! The parameter record of the browse command: which working copy, and which
//! of its remotes to open in the browser.

use vstd::prelude::*;

use crate::console::{LineSource, MessageSink};
use crate::parameters_error::ParametersError;
use crate::resolve::{prompt_for_path, prompt_for_remote_name, string_step};

verus! {

/// The resolved browse parameters, as contracts speak of them.
#[verifier::ext_equal]
pub struct BrowseModel {
    pub path: Seq<char>,
    pub remote_name: Seq<char>,
}

/// The immutable parameter record of the browse command. Whether the path
/// lies inside a working copy is not checked here: the version-control
/// collaborator is the authority on that, and the caller hands it the
/// resolved path.
pub struct BrowseParameters {
    path: String,
    remote_name: String,
}

impl View for BrowseParameters {
    type V = BrowseModel;

    closed spec fn view(&self) -> BrowseModel {
        BrowseModel { path: self.path@, remote_name: self.remote_name@ }
    }
}

impl BrowseParameters {
    pub fn path(&self) -> (r: &String)
        ensures
            r@ == self@.path,
    {
        &self.path
    }

    pub fn remote_name(&self) -> (r: &String)
        ensures
            r@ == self@.remote_name,
    {
        &self.remote_name
    }

    /// Resolves the two browse fields in order: the repository path, whose
    /// default is the caller's current directory, then the remote's name,
    /// whose default is `origin`. An explicit value is echoed and taken
    /// verbatim; a missing one is prompted.
    pub fn prompt_for_missing(
        path: &Option<String>,
        remote_name: &Option<String>,
        default_path: &str,
        source: &mut LineSource,
        sink: &mut MessageSink,
    ) -> (r: Result<BrowseParameters, ParametersError>)
        ensures
            final(source).is_scripted() == old(source).is_scripted(),
            final(sink).is_buffered() == old(sink).is_buffered(),
            !old(sink).is_buffered() ==> *final(sink) == *old(sink),
            r matches Ok(bp) ==> {
                &&& path matches Some(v) ==> bp@.path == v@
                &&& remote_name matches Some(v) ==> bp@.remote_name == v@
            },
            path is Some && remote_name is Some ==> *final(source) == *old(source) && r is Ok,
            old(sink).is_buffered() && (old(source).is_scripted() || (path is Some
                && remote_name is Some)) ==> ({
                let s1 = string_step(
                    path.deep_view(),
                    "Repository path"@,
                    default_path@,
                    old(source).pending(),
                );
                let s2 = string_step(
                    remote_name.deep_view(),
                    "Remote name"@,
                    "origin"@,
                    old(source).pending().skip(s1.used),
                );
                final(sink).log() == old(sink).log() + (if s1.ok {
                    seq![s1.note, s2.note]
                } else {
                    seq![s1.note]
                })
            }),
            old(source).is_scripted() ==> ({
                let s1 = string_step(
                    path.deep_view(),
                    "Repository path"@,
                    default_path@,
                    old(source).pending(),
                );
                let s2 = string_step(
                    remote_name.deep_view(),
                    "Remote name"@,
                    "origin"@,
                    old(source).pending().skip(s1.used),
                );
                &&& final(source).pending() == old(source).pending().skip(
                    if s1.ok {
                        s1.used + s2.used
                    } else {
                        s1.used
                    },
                )
                &&& s1.ok && s2.ok ==> (r matches Ok(bp) && bp@.path == s1.value
                    && bp@.remote_name == s2.value)
                &&& !(s1.ok && s2.ok) ==> (r matches Err(e) && e matches ParametersError::Io(m)
                    && m@ == "end of input"@)
            }),
    {
        let ghost source0 = *source;
        let ghost sink0 = *sink;
        let ghost lines0 = source0.pending();
        let ghost log0 = sink0.log();
        let ghost scripted = source0.is_scripted();
        let ghost watched = sink0.is_buffered() && (scripted || (path is Some && remote_name
            is Some));
        let ghost s1 = string_step(path.deep_view(), "Repository path"@, default_path@, lines0);
        let ghost s2 = string_step(
            remote_name.deep_view(),
            "Remote name"@,
            "origin"@,
            lines0.skip(s1.used),
        );
        let path_value = match prompt_for_path(path, default_path, source, sink) {
            Ok(v) => v,
            Err(e) => {
                proof {
                    if watched {
                        assert(sink.log() =~= log0 + seq![s1.note]);
                    }
                }
                return Err(e);
            },
        };
        let remote_name_value = match prompt_for_remote_name(remote_name, source, sink) {
            Ok(v) => v,
            Err(e) => {
                proof {
                    if scripted {
                        assert(lines0.skip(s1.used).skip(s2.used) =~= lines0.skip(
                            s1.used + s2.used,
                        ));
                    }
                    if watched {
                        assert(sink.log() =~= log0 + seq![s1.note, s2.note]);
                    }
                }
                return Err(e);
            },
        };
        proof {
            if scripted {
                assert(lines0.skip(s1.used).skip(s2.used) =~= lines0.skip(s1.used + s2.used));
            }
            if watched {
                if !scripted {
                    assert(s1.used == 0);
                    assert(lines0.skip(0) =~= lines0);
                }
                assert(sink.log() =~= log0 + seq![s1.note, s2.note]);
            }
        }
        Ok(BrowseParameters { path: path_value, remote_name: remote_name_value })
    }
}

} // verus!
