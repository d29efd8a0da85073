//! Search configuration: the word dictionary, the fixed argument-type list,
//! the target selector, and whether a match is submitted to the external
//! signature database.

use vstd::prelude::*;

verus! {

/// Configuration of one search run.
pub struct RakeFlags {
    dictionary: Vec<String>,
    func_args: String,
    match_selector: String,
    openchain: bool,
}

impl RakeFlags {
    /// The dictionary words, as sequences of characters.
    pub closed spec fn spec_dictionary(&self) -> Seq<Seq<char>> {
        self.dictionary.deep_view()
    }

    /// The argument-type list placed between the parentheses of every
    /// candidate signature.
    pub closed spec fn spec_func_args(&self) -> Seq<char> {
        self.func_args@
    }

    /// The selector the search tries to hit.
    pub closed spec fn spec_match_selector(&self) -> Seq<char> {
        self.match_selector@
    }

    /// Whether a match is submitted to the external signature database.
    pub closed spec fn spec_openchain(&self) -> bool {
        self.openchain
    }

    pub fn new(
        dictionary: Vec<String>,
        func_args: String,
        match_selector: String,
        openchain: bool,
    ) -> (r: Self)
        ensures
            r.spec_dictionary() == dictionary.deep_view(),
            r.spec_func_args() == func_args@,
            r.spec_match_selector() == match_selector@,
            r.spec_openchain() == openchain,
    {
        Self { dictionary, func_args, match_selector, openchain }
    }

    pub fn builder() -> (r: RakeBuilder)
        ensures
            r.spec_dictionary() == Seq::<Seq<char>>::empty(),
            r.spec_func_args() == Seq::<char>::empty(),
            r.spec_match_selector() == Seq::<char>::empty(),
            r.spec_openchain() == false,
    {
        RakeBuilder::new()
    }

    /// Read access to the dictionary for the search loop.
    pub fn dictionary_words(&self) -> (r: &Vec<String>)
        ensures
            r.deep_view() == self.spec_dictionary(),
    {
        &self.dictionary
    }

    /// Read access to the argument-type list.
    pub fn func_args_str(&self) -> (r: &String)
        ensures
            r@ == self.spec_func_args(),
    {
        &self.func_args
    }

    /// Read access to the target selector.
    pub fn match_selector_str(&self) -> (r: &String)
        ensures
            r@ == self.spec_match_selector(),
    {
        &self.match_selector
    }

    /// Whether a match is submitted to the external signature database.
    pub fn openchain_enabled(&self) -> (r: bool)
        ensures
            r == self.spec_openchain(),
    {
        self.openchain
    }
}

impl Default for RakeBuilder {
    fn default() -> (r: Self)
        ensures
            r.spec_dictionary() == Seq::<Seq<char>>::empty(),
            r.spec_func_args() == Seq::<char>::empty(),
            r.spec_match_selector() == Seq::<char>::empty(),
            r.spec_openchain() == false,
    {
        RakeBuilder::new()
    }
}

/// Step-by-step construction of [`RakeFlags`].
pub struct RakeBuilder {
    dictionary: Vec<String>,
    func_args: String,
    match_selector: String,
    openchain: bool,
}

impl RakeBuilder {
    /// The dictionary words collected so far.
    pub closed spec fn spec_dictionary(&self) -> Seq<Seq<char>> {
        self.dictionary.deep_view()
    }

    /// The argument-type list collected so far.
    pub closed spec fn spec_func_args(&self) -> Seq<char> {
        self.func_args@
    }

    /// The target selector collected so far.
    pub closed spec fn spec_match_selector(&self) -> Seq<char> {
        self.match_selector@
    }

    /// The submission choice collected so far.
    pub closed spec fn spec_openchain(&self) -> bool {
        self.openchain
    }

    pub fn new() -> (r: Self)
        ensures
            r.spec_dictionary() == Seq::<Seq<char>>::empty(),
            r.spec_func_args() == Seq::<char>::empty(),
            r.spec_match_selector() == Seq::<char>::empty(),
            r.spec_openchain() == false,
    {
        Self {
            dictionary: Vec::new(),
            func_args: String::new(),
            match_selector: String::new(),
            openchain: false,
        }
    }

    pub fn build(self) -> (r: RakeFlags)
        ensures
            r.spec_dictionary() == self.spec_dictionary(),
            r.spec_func_args() == self.spec_func_args(),
            r.spec_match_selector() == self.spec_match_selector(),
            r.spec_openchain() == self.spec_openchain(),
    {
        RakeFlags {
            dictionary: self.dictionary,
            func_args: self.func_args,
            match_selector: self.match_selector,
            openchain: self.openchain,
        }
    }

    pub fn dictionary(self, dictionary: Vec<String>) -> (r: Self)
        ensures
            r.spec_dictionary() == dictionary.deep_view(),
            r.spec_func_args() == self.spec_func_args(),
            r.spec_match_selector() == self.spec_match_selector(),
            r.spec_openchain() == self.spec_openchain(),
    {
        Self { dictionary, ..self }
    }

    pub fn function_args(self, func_args: String) -> (r: Self)
        ensures
            r.spec_dictionary() == self.spec_dictionary(),
            r.spec_func_args() == func_args@,
            r.spec_match_selector() == self.spec_match_selector(),
            r.spec_openchain() == self.spec_openchain(),
    {
        Self { func_args, ..self }
    }

    pub fn match_selector(self, selector: String) -> (r: Self)
        ensures
            r.spec_dictionary() == self.spec_dictionary(),
            r.spec_func_args() == self.spec_func_args(),
            r.spec_match_selector() == selector@,
            r.spec_openchain() == self.spec_openchain(),
    {
        Self { match_selector: selector, ..self }
    }

    pub fn with_openchain(self, openchain: bool) -> (r: Self)
        ensures
            r.spec_dictionary() == self.spec_dictionary(),
            r.spec_func_args() == self.spec_func_args(),
            r.spec_match_selector() == self.spec_match_selector(),
            r.spec_openchain() == openchain,
    {
        Self { openchain, ..self }
    }
}

} // verus!
