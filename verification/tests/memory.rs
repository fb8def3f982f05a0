use aerocore::memory::aligned::AlignedVec;
use aerocore::memory::arena::{slice_fits, SimArena};
use aerocore::memory::pool::ObjectPool;

#[test]
fn test_aligned_vec_write_read() {
    let mut vec: AlignedVec<f64, 64> = AlignedVec::new(100, 0.0);
    for i in 0..100 {
        vec.as_mut_slice()[i] = i as f64 * 1.5;
    }
    assert!((vec[99] - 148.5).abs() < f64::EPSILON);
}

#[test]
fn test_aligned_vec_fill() {
    let mut vec: AlignedVec<f64, 64> = AlignedVec::new(50, 0.0);
    vec.fill(42.0);
    for v in vec.iter() {
        assert!((v - 42.0).abs() < f64::EPSILON);
    }
}

#[test]
fn test_aligned_vec_empty() {
    let vec: AlignedVec<f64, 64> = AlignedVec::new(0, 0.0);
    assert!(vec.is_empty());
    assert_eq!(vec.len(), 0);
}

#[test]
fn aligned_vec_new_holds_its_values() {
    let vec: AlignedVec<f64, 64> = AlignedVec::new(1000, 0.0);
    assert_eq!(vec.len(), 1000);
    assert!((vec[0] - 0.0).abs() < f64::EPSILON);
    assert_eq!(vec.alignment(), 64);
}

#[test]
fn arena_aligned_slice_holds_its_values() {
    let arena = SimArena::new(1024 * 1024);
    let slice = arena.alloc_aligned_slice(256, 0.0_f64);
    assert_eq!(slice.len(), 256);
    assert_eq!(arena.bytes_used(), 256 * 8);
}

#[test]
fn aligned_vec_from_slice_and_set() {
    let mut v: AlignedVec<i32, 64> = AlignedVec::from_slice(&[1, 2, 3]);
    assert_eq!(v.as_slice(), &[1, 2, 3]);
    v.set(1, 9);
    assert_eq!(v.get(1), 9);
    assert_eq!(v.alignment(), 64);
    assert_eq!(v.len(), 3);
}

#[test]
fn test_arena_alloc_and_reset() {
    let mut arena = SimArena::new(1024 * 1024);

    let slice = arena.alloc_slice(1000, 0.0_f64).expect("fits in the arena");
    assert_eq!(slice.len(), 1000);
    assert_eq!(arena.bytes_used(), 1000 * 8);

    for (i, v) in slice.iter_mut().enumerate() {
        *v = i as f64;
    }
    assert!((slice[999] - 999.0).abs() < f64::EPSILON);

    arena.reset();
    assert_eq!(arena.bytes_used(), 0);
    let utilization = arena.bytes_used() as f64 / arena.capacity() as f64;
    assert!((utilization - 0.0).abs() < f64::EPSILON);
}

#[test]
fn test_arena_utilization() {
    let arena = SimArena::new(8000);
    let _ = arena.alloc_slice(500, 0.0_f64);
    let utilization = arena.bytes_used() as f64 / arena.capacity() as f64;
    assert!((utilization - 0.5).abs() < 0.01);
}

#[test]
fn arena_slices_hold_their_values() {
    let arena = SimArena::new(4096);
    let a = arena.alloc_aligned_slice(16, 7u32);
    let b = arena.alloc_slice(4, 1u64).unwrap();
    a[3] = 5;
    assert!(a.iter().enumerate().all(|(i, &v)| v == if i == 3 { 5 } else { 7 }));
    assert!(b.iter().all(|&v| v == 1));
    assert_eq!(arena.bytes_used(), 16 * 4 + 4 * 8);
    assert_eq!(arena.capacity(), 4096);
}

#[test]
fn test_pool_acquire_release() {
    let mut pool: ObjectPool<f64> = ObjectPool::with_capacity(10);

    let h1 = pool.acquire(1.0);
    let h2 = pool.acquire(2.0);
    let h3 = pool.acquire(3.0);
    assert_eq!(pool.active_count(), 3);

    let val = pool.release(h2);
    assert!((val - 2.0).abs() < f64::EPSILON);
    assert_eq!(pool.active_count(), 2);

    let h4 = pool.acquire(4.0);
    assert_eq!(pool.active_count(), 3);

    assert!((pool.get(h1).unwrap() - 1.0).abs() < f64::EPSILON);
    assert!((pool.get(h3).unwrap() - 3.0).abs() < f64::EPSILON);
    assert!((pool.get(h4).unwrap() - 4.0).abs() < f64::EPSILON);
}

#[test]
fn test_pool_iteration() {
    let mut pool: ObjectPool<&str> = ObjectPool::with_capacity(5);
    pool.acquire("pressure");
    pool.acquire("velocity");
    pool.acquire("temperature");

    let names: Vec<&str> = pool.iter().into_iter().map(|(_, v)| *v).collect();
    assert_eq!(names.len(), 3);
    assert!(names.contains(&"pressure"));
    assert!(names.contains(&"velocity"));
    assert!(names.contains(&"temperature"));
}

#[test]
fn pool_reuses_most_recently_released_slot() {
    let mut pool: ObjectPool<u32> = ObjectPool::with_capacity(4);
    let a = pool.acquire(10);
    let b = pool.acquire(20);
    let c = pool.acquire(30);
    assert_eq!((a.index(), b.index(), c.index()), (0, 1, 2));
    pool.release(a);
    pool.release(c);
    assert_eq!(pool.acquire(40).index(), 2);
    assert_eq!(pool.acquire(50).index(), 0);
    assert_eq!(pool.acquire(60).index(), 3);
    assert!(pool.get(a).is_some());
    assert_eq!(*pool.get(b).unwrap(), 20);
    *pool.get_mut(b).unwrap() = 21;
    assert_eq!(pool.release(b), 21);
    assert!(pool.get(b).is_none());
    assert_eq!(pool.capacity(), 4);
    assert!(!pool.is_empty());
}

#[test]
fn pool_iter_mut_writes_reach_the_pool() {
    let mut pool: ObjectPool<u32> = ObjectPool::with_capacity(4);
    let a = pool.acquire(10);
    let b = pool.acquire(20);
    let c = pool.acquire(30);
    pool.release(b);
    {
        let live = pool.iter_mut();
        assert_eq!(live.len(), 2);
        assert_eq!(live[0].0, a);
        assert_eq!(live[1].0, c);
        for (_, v) in live {
            *v += 1;
        }
    }
    assert_eq!(pool.get(a), Some(&11));
    assert_eq!(pool.get(c), Some(&31));
    assert_eq!(pool.get(b), None);
    assert_eq!(pool.active_count(), 2);
}

#[test]
fn arena_refuses_a_slice_beyond_its_capacity() {
    let arena = SimArena::new(100);
    assert!(arena.alloc_slice(13, 0.0_f64).is_none());
    assert_eq!(arena.bytes_used(), 0);
    assert!(arena.alloc_slice(12, 0.0_f64).is_some());
    assert_eq!(arena.bytes_used(), 96);
    // only 4 bytes are left
    assert!(arena.alloc_slice(1, 0.0_f64).is_none());
    assert!(arena.alloc_slice(1, 0u32).is_some());
    assert_eq!(arena.bytes_used(), 100);
}

#[test]
fn pool_handles_stay_below_capacity() {
    let mut pool: ObjectPool<u8> = ObjectPool::with_capacity(3);
    let a = pool.acquire(1);
    let b = pool.acquire(2);
    let c = pool.acquire(3);
    pool.release(b);
    let d = pool.acquire(4);
    for h in [a, c, d] {
        assert!(h.index() < pool.capacity());
    }
    assert_eq!(d.index(), b.index());
    assert_eq!(pool.get(d), Some(&4));
}

#[test]
fn slice_fits_counts_what_is_left() {
    assert!(slice_fits(0, 8000, 8000));
    assert!(slice_fits(4000, 8000, 4000));
    assert!(!slice_fits(4000, 8000, 4001));
    assert!(!slice_fits(9000, 8000, 0));
    assert!(slice_fits(8000, 8000, 0));
}
