use caja::Caja;
use caja::CajaError;
use caja::render_u64;

#[test]
fn uninitialized_has_requested_length() {
    let c = Caja::<u32>::new_uninitialized(17).unwrap();
    assert_eq!(c.len(), 17);
    let d = Caja::<u8>::new_uninitialized(1).unwrap();
    assert_eq!(d.len(), 1);
}

#[test]
fn zeroed_is_all_zero() {
    let c = Caja::<u64>::new_zeroed(255).unwrap();
    assert_eq!(c.len(), 255);
    for i in 0..255 {
        assert_eq!(*c.index(i), 0);
    }
}

#[test]
fn zeroed_survives_write_and_reread() {
    let mut c = Caja::<u8>::new_zeroed(255).unwrap();
    *c.index_mut(7) = 99;
    for i in 0..255 {
        if i == 7 {
            assert_eq!(*c.index(i), 99);
        } else {
            assert_eq!(*c.index(i), 0);
        }
    }
}

#[test]
fn value_filled_reads_back_everywhere() {
    let c = Caja::<u8>::new(255, 0xAE).unwrap();
    for i in 0..255 {
        assert_eq!(*c.index(i), 0xAE);
    }
}

#[test]
fn zero_size_is_rejected() {
    assert_eq!(
        Caja::<u8>::new_uninitialized(0).unwrap_err(),
        CajaError::ZeroSized
    );
    assert_eq!(Caja::<u16>::new_zeroed(0).unwrap_err(), CajaError::ZeroSized);
    assert_eq!(Caja::<u32>::new(0, 4).unwrap_err(), CajaError::ZeroSized);
    let empty: [u64; 0] = [];
    assert_eq!(
        Caja::<u64>::try_from(&empty[..]).unwrap_err(),
        CajaError::ZeroSized
    );
}

#[test]
fn oversized_layout_is_rejected() {
    assert_eq!(
        Caja::<u64>::new_uninitialized(usize::MAX).unwrap_err(),
        CajaError::LayoutOverflow
    );
    assert_eq!(
        Caja::<u16>::new(usize::MAX, 3).unwrap_err(),
        CajaError::LayoutOverflow
    );
}

#[test]
fn duplicate_is_equal_and_independent() {
    let source = [1u8, 2, 3, 4];
    let original = Caja::<u8>::try_from(&source[..]).unwrap();
    let mut copy = original.clone();

    assert_eq!(copy.len(), original.len());
    for i in 0..4 {
        assert_eq!(*copy.index(i), *original.index(i));
    }

    *copy.index_mut(1) = 9;
    assert_eq!(*copy.index(1), 9);
    assert_eq!(*original.index(1), 2);
    for i in 0..4 {
        assert_eq!(*original.index(i), source[i]);
    }
}

#[test]
fn slices_view_the_whole_buffer() {
    let source = [5u16, 6, 7];
    let mut c = Caja::<u16>::try_from(&source[..]).unwrap();

    assert_eq!(c.as_slice(), &source[..]);

    let view = c.as_mut_slice();
    assert_eq!(view.len(), 3);
    view[2] = 70;
    assert_eq!(*c.index(2), 70);
    assert_eq!(c.as_slice(), &[5u16, 6, 70][..]);
}

#[test]
fn decimal_rendering_is_exact() {
    assert_eq!(render_u64(0), "0");
    assert_eq!(render_u64(9), "9");
    assert_eq!(render_u64(10), "10");
    assert_eq!(render_u64(564), "564");
    assert_eq!(render_u64(1234567890), "1234567890");
    assert_eq!(render_u64(u64::MAX), "18446744073709551615");
}

#[test]
fn display_lists_every_element_in_order() {
    let c = Caja::<u8>::new(3, 7).unwrap();
    assert_eq!(c.to_display_string(), "Length : 3\nData : [ 7, 7, 7 ]\n");

    let source = [10u32, 0, 42];
    let d = Caja::<u32>::try_from(&source[..]).unwrap();
    assert_eq!(d.to_display_string(), "Length : 3\nData : [ 10, 0, 42 ]\n");

    let single = Caja::<u64>::new(1, 9000).unwrap();
    assert_eq!(single.to_display_string(), "Length : 1\nData : [ 9000 ]\n");

    let flags = Caja::<bool>::new(2, true).unwrap();
    assert_eq!(flags.to_display_string(), "Length : 2\nData : [ true, true ]\n");
}

#[test]
fn display_of_usize_buffer() {
    let mut c = Caja::<usize>::new_zeroed(2).unwrap();
    *c.index_mut(0) = 31;
    *c.index_mut(1) = 100;
    assert_eq!(c.to_display_string(), "Length : 2\nData : [ 31, 100 ]\n");
}
