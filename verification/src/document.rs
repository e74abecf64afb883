//! Open documents and the store that holds them, at most one per URI.

use vstd::prelude::*;

verus! {

/// An open document: its URI and its whole text.
#[derive(Debug)]
pub struct TextDocument {
    pub uri: String,
    pub text: String,
}

impl Clone for TextDocument {
    fn clone(&self) -> (res: Self)
        ensures
            res == *self,
    {
        TextDocument { uri: self.uri.clone(), text: self.text.clone() }
    }
}

impl TextDocument {
    /// The document at `uri` with the text `text`.
    pub fn new(uri: String, text: String) -> (document: TextDocument)
        ensures
            document.uri == uri,
            document.text == text,
    {
        TextDocument { uri, text }
    }

    /// The text of the document.
    pub fn get_text(&self) -> (text: &str)
        ensures
            text@ == self.text@,
    {
        self.text.as_str()
    }
}

/// The document store. Its view maps each URI that is stored to the text
/// stored under it.
#[derive(Debug)]
pub struct DocumentStore {
    documents: Vec<TextDocument>,
}

spec fn distinct_uris(documents: Seq<TextDocument>) -> bool {
    forall|i: int, j: int|
        0 <= i < j < documents.len() ==> (#[trigger] documents[i]).uri@ != (
        #[trigger] documents[j]).uri@
}

/// The map that a list of documents with distinct URIs stands for.
spec fn documents_map(documents: Seq<TextDocument>) -> Map<Seq<char>, Seq<char>> {
    Map::new(
        |uri: Seq<char>|
            exists|i: int| 0 <= i < documents.len() && (#[trigger] documents[i]).uri@ == uri,
        |uri: Seq<char>|
            documents[choose|i: int|
                0 <= i < documents.len() && (#[trigger] documents[i]).uri@ == uri].text@,
    )
}

proof fn lemma_stored(documents: Seq<TextDocument>, i: int)
    requires
        distinct_uris(documents),
        0 <= i < documents.len(),
    ensures
        documents_map(documents).dom().contains(documents[i].uri@),
        documents_map(documents)[documents[i].uri@] == documents[i].text@,
{
    let uri = documents[i].uri@;
    let j = choose|j: int| 0 <= j < documents.len() && (#[trigger] documents[j]).uri@ == uri;
    if j < i {
        assert(documents[j].uri@ != documents[i].uri@);
    } else if i < j {
        assert(documents[i].uri@ != documents[j].uri@);
    }
}

fn position(documents: &Vec<TextDocument>, uri: &String) -> (res: Option<usize>)
    ensures
        match res {
            Some(i) => i < documents@.len() && documents@[i as int].uri@ == uri@,
            None => forall|i: int|
                0 <= i < documents@.len() ==> (#[trigger] documents@[i]).uri@ != uri@,
        },
{
    let mut i: usize = 0;
    while i < documents.len()
        invariant
            i <= documents@.len(),
            forall|j: int| 0 <= j < i ==> (#[trigger] documents@[j]).uri@ != uri@,
        decreases documents@.len() - i,
    {
        if documents[i].uri == *uri {
            return Some(i);
        }
        i += 1;
    }
    None
}

impl View for DocumentStore {
    type V = Map<Seq<char>, Seq<char>>;

    closed spec fn view(&self) -> Map<Seq<char>, Seq<char>> {
        documents_map(self.documents@)
    }
}

impl DocumentStore {
    #[verifier::type_invariant]
    spec fn inv(&self) -> bool {
        distinct_uris(self.documents@)
    }

    /// The store without documents.
    pub fn new() -> (res: DocumentStore)
        ensures
            res@ == Map::<Seq<char>, Seq<char>>::empty(),
    {
        let res = DocumentStore { documents: Vec::new() };
        assert(res@ =~= Map::<Seq<char>, Seq<char>>::empty());
        res
    }

    /// Whether a document is stored under `uri`.
    pub fn contains(&self, uri: &str) -> (res: bool)
        ensures
            res == self@.dom().contains(uri@),
    {
        proof {
            use_type_invariant(self);
        }
        match position(&self.documents, &uri.to_owned()) {
            Some(i) => {
                proof {
                    lemma_stored(self.documents@, i as int);
                }
                true
            },
            None => false,
        }
    }

    /// The document stored under `uri`, if there is one.
    pub fn get(&self, uri: &str) -> (res: Option<&TextDocument>)
        ensures
            match res {
                Some(document) => self@.dom().contains(uri@) && document.uri@ == uri@
                    && document.text@ == self@[uri@],
                None => !self@.dom().contains(uri@),
            },
    {
        proof {
            use_type_invariant(self);
        }
        match position(&self.documents, &uri.to_owned()) {
            Some(i) => {
                proof {
                    lemma_stored(self.documents@, i as int);
                }
                Some(&self.documents[i])
            },
            None => None,
        }
    }

    /// Stores `document` under its URI, unless a document is stored under
    /// that URI already: then the store stays as it is and the document comes
    /// back.
    pub fn insert(&mut self, document: TextDocument) -> (res: Result<(), TextDocument>)
        ensures
            match res {
                Ok(()) => !old(self)@.dom().contains(document.uri@) && final(self)@ == old(
                    self,
                )@.insert(document.uri@, document.text@),
                Err(rejected) => old(self)@.dom().contains(document.uri@) && final(self)@ == old(
                    self,
                )@ && rejected == document,
            },
    {
        proof {
            use_type_invariant(&*self);
        }
        let ghost before = self.documents@;
        let ghost uri = document.uri@;
        let ghost text = document.text@;
        match position(&self.documents, &document.uri) {
            Some(i) => {
                proof {
                    lemma_stored(before, i as int);
                }
                Err(document)
            },
            None => {
                let mut documents: Vec<TextDocument> = Vec::new();
                core::mem::swap(&mut self.documents, &mut documents);
                documents.push(document);
                proof {
                    let after = documents@;
                    let n = before.len() as int;
                    assert forall|a: int, b: int| 0 <= a < b < after.len() implies (
                    #[trigger] after[a]).uri@ != (#[trigger] after[b]).uri@ by {
                        assert(after[a] == before[a]);
                        if b < n {
                            assert(after[b] == before[b]);
                        }
                    }
                    assert forall|q: Seq<char>|
                        documents_map(after).dom().contains(q) <==> documents_map(before).insert(
                            uri,
                            text,
                        ).dom().contains(q) by {
                        if documents_map(after).dom().contains(q) {
                            let j = choose|j: int|
                                0 <= j < after.len() && (#[trigger] after[j]).uri@ == q;
                            if j < n {
                                assert(before[j].uri@ == q);
                            }
                        }
                        if documents_map(before).dom().contains(q) {
                            let j = choose|j: int|
                                0 <= j < before.len() && (#[trigger] before[j]).uri@ == q;
                            assert(after[j].uri@ == q);
                        }
                        if q == uri {
                            assert(after[n].uri@ == q);
                        }
                    }
                    assert forall|q: Seq<char>| documents_map(after).dom().contains(q) implies (
                    #[trigger] documents_map(after)[q]) == documents_map(before).insert(
                        uri,
                        text,
                    )[q] by {
                        let j = choose|j: int|
                            0 <= j < after.len() && (#[trigger] after[j]).uri@ == q;
                        lemma_stored(after, j);
                        if j < n {
                            assert(before[j] == after[j]);
                            lemma_stored(before, j);
                        }
                    }
                    assert(documents_map(after) =~= documents_map(before).insert(uri, text));
                }
                self.documents = documents;
                Ok(())
            },
        }
    }

    /// Takes the document stored under `uri` out of the store, if there is
    /// one; else the store stays as it is.
    pub fn remove(&mut self, uri: &str) -> (res: Option<TextDocument>)
        ensures
            match res {
                Some(document) => old(self)@.dom().contains(uri@) && document.uri@ == uri@
                    && document.text@ == old(self)@[uri@] && final(self)@ == old(self)@.remove(
                    uri@,
                ),
                None => !old(self)@.dom().contains(uri@) && final(self)@ == old(self)@,
            },
    {
        proof {
            use_type_invariant(&*self);
        }
        let ghost before = self.documents@;
        match position(&self.documents, &uri.to_owned()) {
            Some(i) => {
                let mut documents: Vec<TextDocument> = Vec::new();
                core::mem::swap(&mut self.documents, &mut documents);
                let document = documents.remove(i);
                proof {
                    let after = documents@;
                    let at = i as int;
                    lemma_stored(before, at);
                    assert forall|a: int| 0 <= a < after.len() implies (#[trigger] after[a]) == (
                    if a < at {
                        before[a]
                    } else {
                        before[a + 1]
                    }) by {}
                    assert forall|a: int, b: int| 0 <= a < b < after.len() implies (
                    #[trigger] after[a]).uri@ != (#[trigger] after[b]).uri@ by {
                        let a0 = if a < at { a } else { a + 1 };
                        let b0 = if b < at { b } else { b + 1 };
                        assert(before[a0].uri@ != before[b0].uri@);
                    }
                    assert forall|q: Seq<char>|
                        documents_map(after).dom().contains(q) <==> documents_map(before).remove(
                            uri@,
                        ).dom().contains(q) by {
                        if documents_map(after).dom().contains(q) {
                            let j = choose|j: int|
                                0 <= j < after.len() && (#[trigger] after[j]).uri@ == q;
                            let j0 = if j < at { j } else { j + 1 };
                            assert(before[j0].uri@ == q);
                            assert(before[j0].uri@ != before[at].uri@) by {
                                if j0 < at {
                                    assert(before[j0].uri@ != before[at].uri@);
                                } else {
                                    assert(before[at].uri@ != before[j0].uri@);
                                }
                            }
                        }
                        if documents_map(before).dom().contains(q) && q != uri@ {
                            let j = choose|j: int|
                                0 <= j < before.len() && (#[trigger] before[j]).uri@ == q;
                            let j1 = if j < at { j } else { j - 1 };
                            assert(after[j1].uri@ == q);
                        }
                    }
                    assert forall|q: Seq<char>| documents_map(after).dom().contains(q) implies (
                    #[trigger] documents_map(after)[q]) == documents_map(before).remove(uri@)[q] by {
                        let j = choose|j: int|
                            0 <= j < after.len() && (#[trigger] after[j]).uri@ == q;
                        let j0 = if j < at { j } else { j + 1 };
                        lemma_stored(after, j);
                        lemma_stored(before, j0);
                    }
                    assert(documents_map(after) =~= documents_map(before).remove(uri@));
                }
                self.documents = documents;
                Some(document)
            },
            None => None,
        }
    }
}

} // verus!
