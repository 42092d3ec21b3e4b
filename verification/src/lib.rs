use vstd::prelude::*;

verus! {

/// Capability interface: one operation, `bar`, that constructs a fresh
/// instance of the implementing type. The operation is total: it takes no
/// arguments, always succeeds, and has no side effects beyond producing
/// the returned value. An implementer also provides a one-line,
/// human-readable rendering of its values.
pub trait Foo: Sized {
    /// The one instance that `bar` constructs.
    spec fn constructed() -> Self;

    /// The text that `render` produces for this value.
    spec fn rendered(&self) -> Seq<char>;

    /// Construct a fresh instance of the implementing type.
    fn bar() -> (r: Self)
        ensures
            r == Self::constructed(),
    ;

    /// Render the value as human-readable text. The text holds no line
    /// break, so emitting it followed by a newline prints exactly one line.
    fn render(&self) -> (r: String)
        ensures
            r@ == self.rendered(),
            forall|i: int| 0 <= i < r@.len() ==> r@[i] != '\n',
    ;
}

/// Marker type: zero fields, so it has exactly one possible state.
#[derive(Debug)]
pub struct Baz;

impl Foo for Baz {
    open spec fn constructed() -> Self {
        Baz
    }

    open spec fn rendered(&self) -> Seq<char> {
        "Baz"@
    }

    fn bar() -> (r: Self) {
        Baz
    }

    fn render(&self) -> (r: String) {
        proof {
            reveal_strlit("Baz");
        }
        "Baz".to_owned()
    }
}

/// Invoke the capability operation for the type of the referenced value and
/// render the resulting fresh instance. This is the computing half of the
/// dispatch routine; the caller emits the returned text, and because the
/// text holds no line break that emission is exactly one line, whichever
/// conforming type was passed.
pub fn render_bar<T: Foo>(_foo: &T) -> (line: String)
    ensures
        line@ == T::constructed().rendered(),
        forall|i: int| 0 <= i < line@.len() ==> line@[i] != '\n',
{
    let fresh = T::bar();
    fresh.render()
}

/// Law: all instances of the marker type are interchangeable, since it
/// stores no state.
pub proof fn lemma_baz_interchangeable(a: Baz, b: Baz)
    ensures
        a == b,
{
}

/// Law: the capability operation on the marker type yields a value whose
/// rendered text is the bare type name, with no fields listed.
pub proof fn lemma_baz_bar_renders_name(r: Baz)
    requires
        r == <Baz as Foo>::constructed(),
    ensures
        r.rendered() == "Baz"@,
{
}

/// Law: constructing and rendering is idempotent: any two instances
/// produced by the capability operation render to the same text.
pub proof fn lemma_construct_render_idempotent<T: Foo>(r1: T, r2: T)
    requires
        r1 == T::constructed(),
        r2 == T::constructed(),
    ensures
        r1.rendered() == r2.rendered(),
{
}

} // verus!
