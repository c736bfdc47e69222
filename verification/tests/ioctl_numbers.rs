use movenet::ioctl::{
    ioc, ior, iow, iowr, SIZE_BUFFER, SIZE_BUF_TYPE, SIZE_CAPABILITY, SIZE_FORMAT,
    SIZE_REQUESTBUFFERS, SIZE_STREAMPARM, V4L2_MAGIC, VIDIOC_DQBUF, VIDIOC_G_FMT, VIDIOC_G_PARM,
    VIDIOC_QBUF, VIDIOC_QUERYBUF, VIDIOC_QUERYCAP, VIDIOC_REQBUFS, VIDIOC_STREAMOFF,
    VIDIOC_STREAMON, VIDIOC_S_FMT, VIDIOC_S_PARM,
};

#[test]
fn request_numbers_follow_the_standard_encoding() {
    assert_eq!(ior(V4L2_MAGIC, 0, SIZE_CAPABILITY), VIDIOC_QUERYCAP);
    assert_eq!(iowr(V4L2_MAGIC, 4, SIZE_FORMAT), VIDIOC_G_FMT);
    assert_eq!(iowr(V4L2_MAGIC, 5, SIZE_FORMAT), VIDIOC_S_FMT);
    assert_eq!(iowr(V4L2_MAGIC, 22, SIZE_STREAMPARM), VIDIOC_S_PARM);
    assert_eq!(iowr(V4L2_MAGIC, 21, SIZE_STREAMPARM), VIDIOC_G_PARM);
    assert_eq!(iowr(V4L2_MAGIC, 8, SIZE_REQUESTBUFFERS), VIDIOC_REQBUFS);
    assert_eq!(iowr(V4L2_MAGIC, 9, SIZE_BUFFER), VIDIOC_QUERYBUF);
    assert_eq!(iowr(V4L2_MAGIC, 15, SIZE_BUFFER), VIDIOC_QBUF);
    assert_eq!(iowr(V4L2_MAGIC, 17, SIZE_BUFFER), VIDIOC_DQBUF);
    assert_eq!(iow(V4L2_MAGIC, 18, SIZE_BUF_TYPE), VIDIOC_STREAMON);
    assert_eq!(iow(V4L2_MAGIC, 19, SIZE_BUF_TYPE), VIDIOC_STREAMOFF);
}

#[test]
fn request_numbers_have_their_known_values() {
    assert_eq!(VIDIOC_QUERYCAP, 0x8068_5600);
    assert_eq!(VIDIOC_G_FMT, 0xC0D0_5604);
    assert_eq!(VIDIOC_REQBUFS, 0xC014_5608);
    assert_eq!(VIDIOC_DQBUF, 0xC058_5611);
    assert_eq!(VIDIOC_STREAMON, 0x4004_5612);
}

#[test]
fn parts_of_a_request_number_lie_in_their_fields() {
    assert_eq!(ioc(0, 0, 1, 0), 1);
    assert_eq!(ioc(0, 1, 0, 0), 1 << 8);
    assert_eq!(ioc(0, 0, 0, 1), 1 << 16);
    assert_eq!(ioc(1, 0, 0, 0), 1 << 30);
    assert_eq!(ioc(3, 0x56, 9, 88), 0xC058_5609);
}
