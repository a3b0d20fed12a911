//! The states of keys and buttons, by code.

use vstd::prelude::*;

verus! {

/// What a key or button is doing: it is up, it went down since the last
/// poll, it is held down, or it came up since the last poll.
#[derive(Clone, Copy, Debug, PartialEq, Eq, Structural)]
pub enum ButtonState {
    Up,
    Pressed,
    Down,
    Released,
}

impl ButtonState {
    /// The state one poll later, where nothing happened to the button: what
    /// went down is held, and what came up is up.
    pub open spec fn spec_settled(self) -> ButtonState {
        match self {
            ButtonState::Pressed => ButtonState::Down,
            ButtonState::Released => ButtonState::Up,
            s => s,
        }
    }

    /// The state one poll later, where nothing happened to the button.
    #[verifier::when_used_as_spec(spec_settled)]
    pub fn settled(self) -> (s: ButtonState)
        ensures
            s == self.spec_settled(),
    {
        match self {
            ButtonState::Pressed => ButtonState::Down,
            ButtonState::Released => ButtonState::Up,
            s => s,
        }
    }

    /// The state after the button was reported pressed or released: a button
    /// that is up goes down, one that is held comes up, and a report that
    /// does not fit the state changes nothing.
    pub open spec fn spec_after_input(self, pressed: bool) -> ButtonState {
        if pressed && self == ButtonState::Up {
            ButtonState::Pressed
        } else if !pressed && self == ButtonState::Down {
            ButtonState::Released
        } else {
            self
        }
    }

    /// The state after the button was reported pressed or released.
    #[verifier::when_used_as_spec(spec_after_input)]
    pub fn after_input(self, pressed: bool) -> (s: ButtonState)
        ensures
            s == self.spec_after_input(pressed),
    {
        if pressed {
            match self {
                ButtonState::Up => ButtonState::Pressed,
                s => s,
            }
        } else {
            match self {
                ButtonState::Down => ButtonState::Released,
                s => s,
            }
        }
    }
}

/// The states after the button `code` was reported pressed or released: a
/// button that has a state takes the report; one that has none gets the state
/// `Pressed` when it is pressed, and stays without one when it is released.
pub open spec fn reported(m: Map<u32, ButtonState>, code: u32, pressed: bool) -> Map<
    u32,
    ButtonState,
> {
    if m.contains_key(code) {
        m.insert(code, m[code].spec_after_input(pressed))
    } else if pressed {
        m.insert(code, ButtonState::Pressed)
    } else {
        m
    }
}

/// The states one poll later, where nothing happened to any button.
pub open spec fn all_settled(m: Map<u32, ButtonState>) -> Map<u32, ButtonState> {
    m.map_values(|s: ButtonState| s.spec_settled())
}

/// The states of the buttons that have been pressed at least once, by code.
pub struct Buttons {
    codes: Vec<u32>,
    states: Vec<ButtonState>,
}

impl View for Buttons {
    type V = Map<u32, ButtonState>;

    closed spec fn view(&self) -> Map<u32, ButtonState> {
        Map::new(
            |c: u32| self.codes@.contains(c),
            |c: u32| self.states@[self.codes@.index_of(c)],
        )
    }
}

impl Buttons {
    /// The invariant: every code has one state, and no code occurs twice.
    pub closed spec fn wf(&self) -> bool {
        &&& self.codes@.len() == self.states@.len()
        &&& self.codes@.no_duplicates()
    }

    /// Where a code stands is where it is found.
    proof fn lemma_index(&self, i: int)
        requires
            self.wf(),
            0 <= i < self.codes@.len(),
        ensures
            self.codes@.contains(self.codes@[i]),
            self.codes@.index_of(self.codes@[i]) == i,
            self@.contains_key(self.codes@[i]),
            self@[self.codes@[i]] == self.states@[i],
    {
        let c = self.codes@[i];
        assert(self.codes@.contains(c));
        let j = self.codes@.index_of(c);
        assert(0 <= j < self.codes@.len() && self.codes@[j] == c);
    }

    /// No button has a state.
    pub fn new() -> (b: Buttons)
        ensures
            b.wf(),
            b@ == Map::<u32, ButtonState>::empty(),
    {
        let b = Buttons { codes: Vec::new(), states: Vec::new() };
        assert(b@ =~= Map::<u32, ButtonState>::empty());
        b
    }

    /// Where `code` stands, if it has a state.
    fn find(&self, code: u32) -> (r: Option<usize>)
        requires
            self.wf(),
        ensures
            match r {
                Some(i) => i < self.codes@.len() && self.codes@[i as int] == code,
                None => !self.codes@.contains(code),
            },
    {
        let mut i: usize = 0;
        while i < self.codes.len()
            invariant
                i <= self.codes@.len(),
                forall|k: int| 0 <= k < i ==> self.codes@[k] != code,
            decreases self.codes@.len() - i,
        {
            if self.codes[i] == code {
                return Some(i);
            }
            i = i + 1;
        }
        None
    }

    /// The state of the button `code`, if it has one.
    pub fn get(&self, code: u32) -> (r: Option<ButtonState>)
        requires
            self.wf(),
        ensures
            r == (if self@.contains_key(code) {
                Some(self@[code])
            } else {
                None
            }),
    {
        match self.find(code) {
            Some(i) => {
                proof {
                    self.lemma_index(i as int);
                }
                Some(self.states[i])
            },
            None => None,
        }
    }

    /// Takes the report that the button `code` was pressed or released.
    pub fn report(&mut self, code: u32, pressed: bool)
        requires
            old(self).wf(),
        ensures
            final(self).wf(),
            final(self)@ == reported(old(self)@, code, pressed),
    {
        let ghost before = *self;
        match self.find(code) {
            Some(i) => {
                let next = self.states[i].after_input(pressed);
                self.states[i] = next;
                proof {
                    before.lemma_index(i as int);
                    assert forall|c: u32| self@.contains_key(c) implies #[trigger] self@[c]
                        == reported(before@, code, pressed)[c] by {
                        let j = self.codes@.index_of(c);
                        before.lemma_index(j);
                    }
                    assert(self@ =~= reported(before@, code, pressed));
                }
            },
            None => {
                if pressed {
                    self.codes.push(code);
                    self.states.push(ButtonState::Pressed);
                    proof {
                        let n = before.codes@.len() as int;
                        assert(self.codes@[n] == code);
                        assert forall|c: u32| self.codes@.contains(c) <==> (c == code
                            || before.codes@.contains(c)) by {
                            if before.codes@.contains(c) {
                                let k = before.codes@.index_of(c);
                                assert(self.codes@[k] == c);
                            }
                            if self.codes@.contains(c) && c != code {
                                let k = self.codes@.index_of(c);
                                assert(before.codes@[k] == c);
                            }
                        }
                        assert forall|c: u32| self@.contains_key(c) implies #[trigger] self@[c]
                            == reported(before@, code, pressed)[c] by {
                            let j = self.codes@.index_of(c);
                            self.lemma_index(j);
                            if j < n {
                                before.lemma_index(j);
                            }
                        }
                        assert(self@ =~= reported(before@, code, pressed));
                    }
                }
            },
        }
    }

    /// Lets a poll pass: what went down is held, and what came up is up.
    pub fn settle(&mut self)
        requires
            old(self).wf(),
        ensures
            final(self).wf(),
            final(self)@ == all_settled(old(self)@),
    {
        let ghost before = *self;
        let mut i: usize = 0;
        while i < self.states.len()
            invariant
                i <= self.states@.len(),
                self.codes@ == before.codes@,
                self.states@.len() == before.states@.len(),
                before.wf(),
                forall|k: int| 0 <= k < i ==> self.states@[k] == before.states@[k].spec_settled(),
                forall|k: int| i <= k < self.states@.len() ==> self.states@[k] == before.states@[k],
            decreases self.states@.len() - i,
        {
            let next = self.states[i].settled();
            self.states[i] = next;
            i = i + 1;
        }
        proof {
            assert forall|c: u32| self@.contains_key(c) implies #[trigger] self@[c] == all_settled(
                before@,
            )[c] by {
                let j = self.codes@.index_of(c);
                before.lemma_index(j);
            }
            assert(self@ =~= all_settled(before@));
        }
    }

    /// The codes of the buttons that are held down, each once, in no
    /// particular order.
    pub fn held(&self) -> (r: Vec<u32>)
        requires
            self.wf(),
        ensures
            r@.no_duplicates(),
            forall|c: u32|
                r@.contains(c) <==> self@.contains_key(c) && self@[c] == ButtonState::Down,
    {
        let mut r: Vec<u32> = Vec::new();
        let mut i: usize = 0;
        while i < self.codes.len()
            invariant
                i <= self.codes@.len(),
                self.wf(),
                r@.no_duplicates(),
                forall|c: u32|
                    r@.contains(c) <==> exists|k: int|
                        0 <= k < i && self.codes@[k] == c && self.states@[k] == ButtonState::Down,
            decreases self.codes@.len() - i,
        {
            let ghost prev = r@;
            if self.states[i] == ButtonState::Down {
                let code = self.codes[i];
                proof {
                    if prev.contains(code) {
                        let k = choose|k: int|
                            0 <= k < i && self.codes@[k] == code && self.states@[k]
                                == ButtonState::Down;
                        assert(self.codes@[k] == self.codes@[i as int]);
                    }
                }
                r.push(code);
                proof {
                    assert forall|c: u32| r@.contains(c) <==> exists|k: int|
                        0 <= k < i + 1 && self.codes@[k] == c && self.states@[k]
                            == ButtonState::Down by {
                        if r@.contains(c) {
                            let j = r@.index_of(c);
                            if j < prev.len() {
                                assert(prev[j] == c);
                                assert(prev.contains(c));
                            } else {
                                assert(self.codes@[i as int] == c);
                            }
                        }
                        if exists|k: int|
                            0 <= k < i + 1 && self.codes@[k] == c && self.states@[k]
                                == ButtonState::Down {
                            let k = choose|k: int|
                                0 <= k < i + 1 && self.codes@[k] == c && self.states@[k]
                                    == ButtonState::Down;
                            if k < i {
                                assert(prev.contains(c));
                                let j = prev.index_of(c);
                                assert(r@[j] == c);
                            } else {
                                assert(r@[prev.len() as int] == c);
                            }
                        }
                    }
                }
            }
            i = i + 1;
        }
        proof {
            assert forall|c: u32| r@.contains(c) <==> self@.contains_key(c) && self@[c]
                == ButtonState::Down by {
                if r@.contains(c) {
                    let k = choose|k: int|
                        0 <= k < self.codes@.len() && self.codes@[k] == c && self.states@[k]
                            == ButtonState::Down;
                    self.lemma_index(k);
                }
                if self@.contains_key(c) && self@[c] == ButtonState::Down {
                    let j = self.codes@.index_of(c);
                    self.lemma_index(j);
                }
            }
        }
        r
    }
}

} // verus!
