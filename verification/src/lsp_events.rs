//! What the editor makes of a language server's lifecycle: a server that
//! becomes ready, reports a status, stops or restarts.

use vstd::prelude::*;

use crate::app::App;
use crate::lsp::lookup;
use crate::validation::str_is;

verus! {

/// A lifecycle event from a language server.
pub enum LspEvent {
    /// The server for `language`, called `name`, finished its handshake.
    Ready { language: String, name: String },
    /// The server reports `message`, as an error or as information.
    Status { message: String, error: bool },
    /// The server for `language` stopped, saying `message`.
    Stopped { language: String, message: String },
    /// The server for `language` is starting again.
    Restarted { language: String },
}

/// `s` without the entries keyed by `language`, in order.
pub open spec fn without_language<T>(s: Seq<(String, T)>, language: Seq<char>) -> Seq<(String, T)>
    decreases s.len(),
{
    if s.len() == 0 {
        Seq::empty()
    } else {
        (if s[0].0@ != language {
            seq![s[0]]
        } else {
            Seq::empty()
        }) + without_language(s.skip(1), language)
    }
}

/// The buffers of `docs`, in order, whose language in `a` is not `language`.
pub open spec fn documents_without(a: App, docs: Seq<usize>, language: Seq<char>) -> Seq<usize>
    decreases docs.len(),
{
    if docs.len() == 0 {
        Seq::empty()
    } else {
        (if a.spec_language_of(docs[0]) != Some(language) {
            seq![docs[0]]
        } else {
            Seq::empty()
        }) + documents_without(a, docs.skip(1), language)
    }
}

/// The open buffers below `n`, in order, whose language in `a` is
/// `language`: those a server that becomes ready is told about.
pub open spec fn buffers_of_language(a: App, language: Seq<char>, n: int) -> Seq<usize>
    decreases n,
{
    if n <= 0 {
        Seq::empty()
    } else {
        buffers_of_language(a, language, n - 1) + if !a.closed_buffers@.contains((n - 1) as usize)
            && a.spec_language_of((n - 1) as usize) == Some(language) {
            seq![(n - 1) as usize]
        } else {
            Seq::empty()
        }
    }
}

/// The ready servers once the server for `language`, called `name`, is
/// ready: its entry replaced, or added at the end.
pub open spec fn servers_with(servers: Seq<(String, String)>, language: String, name: String) -> Seq<
    (String, String),
> {
    match lookup(servers, language@) {
        Some(i) => servers.update(i, (language, name)),
        None => servers.push((language, name)),
    }
}

/// `after` is `before` once the server for `language` is gone: its entry,
/// the documents of its language and their diagnostics dropped, nothing
/// else changed.
#[verifier::opaque]
pub open spec fn language_forgotten(before: App, after: App, language: Seq<char>) -> bool {
    &&& after.lsp.servers@ == without_language(before.lsp.servers@, language)
    &&& after.lsp.diagnostics@ == without_language(before.lsp.diagnostics@, language)
    &&& after.lsp.documents@ == documents_without(before, before.lsp.documents@, language)
    &&& after == (App {
        lsp: crate::app::LspState {
            servers: after.lsp.servers,
            diagnostics: after.lsp.diagnostics,
            documents: after.lsp.documents,
            ..before.lsp
        },
        ..before
    })
}

/// `after` is `before` once the server for `language`, called `name`, is
/// ready, with `announce` the buffers it is told about: the open buffers of
/// that language, in order; only the ready servers change.
#[verifier::opaque]
pub open spec fn server_readied(
    before: App,
    after: App,
    language: String,
    name: String,
    announce: Seq<usize>,
) -> bool {
    &&& announce == buffers_of_language(before, language@, before.buffers@.len() as int)
    &&& after.lsp.servers@ == servers_with(before.lsp.servers@, language, name)
    &&& after == (App { lsp: crate::app::LspState { servers: after.lsp.servers, ..before.lsp }, ..before })
}

/// Drops the entries of `v` keyed by `language`.
fn drop_language<T>(v: &mut Vec<(String, T)>, language: &String)
    ensures
        final(v)@ == without_language(old(v)@, language@),
{
    let mut rest: Vec<(String, T)> = Vec::new();
    std::mem::swap(&mut rest, v);
    let ghost all = rest@;
    assert(v@ + without_language(rest@, language@) == without_language(all, language@));
    while rest.len() > 0
        invariant
            v@ + without_language(rest@, language@) == without_language(all, language@),
        decreases rest@.len(),
    {
        let ghost before = rest@;
        let p = rest.remove(0);
        assert(rest@ == before.skip(1));
        if !str_is(&p.0, language.as_str()) {
            v.push(p);
        }
    }
}

impl App {
    /// The documents whose buffer's language is not `language`, in order.
    fn documents_kept(&self, language: &String) -> (r: Vec<usize>)
        ensures
            r@ == documents_without(*self, self.lsp.documents@, language@),
    {
        let docs = &self.lsp.documents;
        let mut r: Vec<usize> = Vec::new();
        let mut i: usize = 0;
        assert(docs@.skip(0) == docs@);
        while i < docs.len()
            invariant
                i <= docs@.len(),
                r@ + documents_without(*self, docs@.skip(i as int), language@) == documents_without(
                    *self,
                    docs@,
                    language@,
                ),
            decreases docs@.len() - i,
        {
            let b = docs[i];
            assert(docs@.skip(i as int)[0] == b);
            assert(docs@.skip(i as int).skip(1) == docs@.skip(i + 1));
            let same = match self.language_of(b) {
                Some(l) => str_is(&l, language.as_str()),
                None => false,
            };
            if !same {
                r.push(b);
            }
            i = i + 1;
        }
        r
    }

    /// The open buffers whose language is `language`, in order.
    fn buffers_of(&self, language: &String) -> (r: Vec<usize>)
        ensures
            r@ == buffers_of_language(*self, language@, self.buffers@.len() as int),
    {
        let mut r: Vec<usize> = Vec::new();
        let mut b: usize = 0;
        while b < self.buffers.len()
            invariant
                b <= self.buffers@.len(),
                r@ == buffers_of_language(*self, language@, b as int),
            decreases self.buffers@.len() - b,
        {
            let same = match self.language_of(b) {
                Some(l) => str_is(&l, language.as_str()),
                None => false,
            };
            if !self.is_closed(b) && same {
                r.push(b);
            }
            b = b + 1;
        }
        r
    }

    /// Takes in a language server's lifecycle `event`, handing back the
    /// buffers the host announces to the server.
    ///
    /// A server that becomes ready is recorded under its language, replacing
    /// any earlier one, and every open buffer of that language is handed
    /// back. A status report goes to the status line, as an error or not. A
    /// server that stops or restarts takes with it its entry, the documents
    /// of its language and their diagnostics, which nothing would correct any
    /// more; a stop is also reported on the status line as an error.
    pub fn apply_lsp_event(&mut self, event: LspEvent) -> (announce: Vec<usize>)
        ensures
            match event {
                LspEvent::Ready { language, name } => server_readied(*old(self), *final(self), language, name, announce@),
                LspEvent::Status { message, error } => {
                    &&& announce@.len() == 0
                    &&& final(self).status == message
                    &&& *final(self) == (App { status: message, status_error: error, ..*old(self) })
                },
                LspEvent::Stopped { language, message } => {
                    &&& announce@.len() == 0
                    &&& language_forgotten(
                        *old(self),
                        App { status: old(self).status, status_error: old(self).status_error, ..*final(self) },
                        language@,
                    )
                    &&& final(self).status == message
                    &&& final(self).status_error
                },
                LspEvent::Restarted { language } => announce@.len() == 0 && language_forgotten(
                    *old(self),
                    *final(self),
                    language@,
                ),
            },
    {
        match event {
            LspEvent::Ready { language, name } => self.server_ready(language, name),
            LspEvent::Status { message, error } => {
                self.status = message;
                self.status_error = error;
                Vec::new()
            },
            LspEvent::Stopped { language, message } => {
                self.server_stopped(&language, message);
                Vec::new()
            },
            LspEvent::Restarted { language } => {
                self.forget_language(&language);
                Vec::new()
            },
        }
    }

    /// The server for `language` stopped, saying `message`: it is forgotten
    /// and the message reported as an error.
    fn server_stopped(&mut self, language: &String, message: String)
        ensures
            language_forgotten(
                *old(self),
                App { status: old(self).status, status_error: old(self).status_error, ..*final(self) },
                language@,
            ),
            final(self).status == message,
            final(self).status_error,
    {
        self.forget_language(language);
        self.status = message;
        self.status_error = true;
        proof {
            reveal(language_forgotten);
        }
    }

    /// Records the server for `language`, called `name`, as ready, and hands
    /// back the open buffers of that language.
    fn server_ready(&mut self, language: String, name: String) -> (announce: Vec<usize>)
        ensures
            server_readied(*old(self), *final(self), language, name, announce@),
    {
        let announce = self.buffers_of(&language);
        match App::find_pair(&self.lsp.servers, &language) {
            Some(i) => self.lsp.servers.set(i, (language, name)),
            None => self.lsp.servers.push((language, name)),
        }
        proof {
            reveal(server_readied);
        }
        announce
    }

    /// Drops the server, documents and diagnostics of `language`.
    fn forget_language(&mut self, language: &String)
        ensures
            language_forgotten(*old(self), *final(self), language@),
    {
        let kept = self.documents_kept(language);
        self.lsp.documents = kept;
        drop_language(&mut self.lsp.servers, language);
        drop_language(&mut self.lsp.diagnostics, language);
        proof {
            reveal(language_forgotten);
        }
    }
}

/// Once the server for `language` stops or restarts, nothing of that
/// language is left: no entry keyed by it, and every other entry kept.
pub proof fn lemma_without_language<T>(s: Seq<(String, T)>, language: Seq<char>)
    ensures
        forall|k: int|
            0 <= k < without_language(s, language).len() ==> (#[trigger] without_language(s, language)[k]).0@
                != language,
        forall|i: int|
            0 <= i < s.len() && (#[trigger] s[i]).0@ != language ==> without_language(s, language).contains(s[i]),
    decreases s.len(),
{
    if s.len() > 0 {
        let rest = s.skip(1);
        lemma_without_language(rest, language);
        let head: Seq<(String, T)> = if s[0].0@ != language {
            seq![s[0]]
        } else {
            Seq::empty()
        };
        let w = without_language(s, language);
        assert(w == head + without_language(rest, language));
        assert forall|k: int| 0 <= k < w.len() implies (#[trigger] w[k]).0@ != language by {
            if k >= head.len() {
                assert(w[k] == without_language(rest, language)[k - head.len()]);
            }
        }
        assert forall|i: int| 0 <= i < s.len() && (#[trigger] s[i]).0@ != language implies w.contains(s[i]) by {
            if i == 0 {
                assert(w[0] == s[0]);
            } else {
                assert(rest[i - 1] == s[i]);
                let k = choose|k: int| 0 <= k < without_language(rest, language).len()
                    && without_language(rest, language)[k] == s[i];
                assert(w[k + head.len()] == s[i]);
            }
        }
    }
}

} // verus!
