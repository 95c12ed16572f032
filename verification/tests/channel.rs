use reta::chan::{beta, nightly, stable};
use reta::{Channel, Const, Mut};

#[test]
fn channel_names() {
    assert_eq!(Channel::Stable.name(), "stable");
    assert_eq!(Channel::Beta.name(), "beta");
    assert_eq!(Channel::Nightly.name(), "nightly");
}

#[test]
fn channel_per_compiler() {
    assert!(matches!(stable::channel(), Channel::Stable));
    assert!(matches!(beta::channel(), Channel::Beta));
    assert!(matches!(nightly::channel(), Channel::Nightly));
}

#[test]
fn channel_equals_its_constant() {
    assert!(stable::channel() == stable::CHANNEL);
    assert!(beta::channel() == beta::CHANNEL);
    assert!(nightly::channel() == nightly::CHANNEL);
}

#[test]
fn channel_is_one_of_three() {
    for c in [stable::channel(), beta::channel(), nightly::channel()] {
        assert!(matches!(c, Channel::Nightly | Channel::Beta | Channel::Stable));
    }
}

#[test]
fn context_token_names() {
    assert_eq!(Mut.name(), "Mut");
    assert_eq!(Const.name(), "Const");
}

#[test]
fn context_markers() {
    fn requires_mut<T: reta::Mutable>() {}
    fn requires_const<T: reta::Constant>() {}
    fn requires_constness<T: reta::Constness>() {}
    requires_mut::<Mut>();
    requires_const::<Const>();
    requires_constness::<Mut>();
    requires_constness::<Const>();
}
