//! Controls that a screen draws in turn.
use vstd::prelude::*;

verus! {

/// Something a screen can draw. `draw` returns the drawing, which the
/// caller displays.
pub trait Component {
    spec fn drawing(&self) -> Seq<char>;

    fn draw(&self) -> (r: String)
        ensures
            r@ == self.drawing(),
    ;
}

impl<C: Component> Component for Box<C> {
    open spec fn drawing(&self) -> Seq<char> {
        (**self).drawing()
    }

    fn draw(&self) -> (r: String) {
        (**self).draw()
    }
}

pub struct Button {
    pub width: u32,
    pub height: u32,
    pub label: String,
}

impl Button {
    /// A button of no size with an empty label.
    pub fn new() -> (r: Self)
        ensures
            r.width == 0,
            r.height == 0,
            r.label@ == Seq::<char>::empty(),
    {
        Self { width: 0, height: 0, label: String::new() }
    }
}

pub struct Select {
    pub width: u32,
    pub height: u32,
    pub options: Vec<String>,
}

impl Select {
    /// A select of no size without options.
    pub fn new() -> (r: Self)
        ensures
            r.width == 0,
            r.height == 0,
            r.options@.len() == 0,
    {
        Self { width: 0, height: 0, options: vec![] }
    }
}

pub enum ControlType {
    Button,
    Select,
}

pub enum ControlEntity {
    Button(Button),
    Select(Select),
}

pub struct Control<T> {
    pub control_type: ControlType,
    pub entity: T,
}

impl Control<ControlEntity> {
    /// A control of the given kind, holding a new entity of that kind.
    pub fn new(control_type: ControlType) -> (r: Self)
        ensures
            r.control_type == control_type,
            control_type is Button ==> (r.entity matches ControlEntity::Button(b) && b.width == 0
                && b.height == 0 && b.label@.len() == 0),
            control_type is Select ==> (r.entity matches ControlEntity::Select(s) && s.width == 0
                && s.height == 0 && s.options@.len() == 0),
    {
        match control_type {
            ControlType::Button => Self { control_type, entity: ControlEntity::Button(Button::new()) },
            ControlType::Select => Self { control_type, entity: ControlEntity::Select(Select::new()) },
        }
    }
}

impl Component for Control<ControlEntity> {
    open spec fn drawing(&self) -> Seq<char> {
        "Draw control"@
    }

    fn draw(&self) -> (r: String) {
        String::from_str("Draw control")
    }
}

pub struct Screen<T: Component> {
    pub components: Vec<T>,
}

impl<T: Component> Screen<T> {
    /// Draws every component, in order, and returns the drawings.
    pub fn run(&self) -> (r: Vec<String>)
        ensures
            r@.len() == self.components@.len(),
            forall|i: int| 0 <= i < r@.len() ==> #[trigger] r@[i]@ == self.components@[i].drawing(),
    {
        let mut r: Vec<String> = Vec::new();
        let mut i: usize = 0;
        while i < self.components.len()
            invariant
                i <= self.components@.len(),
                r@.len() == i,
                forall|j: int| 0 <= j < i ==> #[trigger] r@[j]@ == self.components@[j].drawing(),
            decreases self.components@.len() - i,
        {
            r.push(self.components[i].draw());
            i = i + 1;
        }
        r
    }
}

} // verus!
